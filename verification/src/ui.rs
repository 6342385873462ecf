//! What the interface shows and decides outside the engine: file types and
//! categories, category folders, time-left and date texts, links found in
//! pasted text, names for duplicate downloads, and progress-window choices.
use vstd::prelude::*;
use crate::text::{
    Strip, chars_of, string_of, owned, starts_with, has_prefix, has_char, contains, trim, trim_by,
    strip, split_seq, split_char, append, append_str, dec, dec_u64, dec2, dec2_u64, eq_lit, lower,
    eq_ignore_case, ext_rule, stem_rule, plain_name, path_extension, path_file_stem, opt_view,
};
use crate::catalog::{
    lower_ext, lower_extension, compressed_ext, is_compressed_ext, program_ext, is_program_ext,
    video_ext, is_video_ext, music_ext, is_music_ext, document_ext, is_document_ext, picture_ext,
    is_picture_ext, code_ext, is_code_ext,
};
use crate::downloader::{TaskSnapshot, new_id, hex_of, placeholder_name, link_name};
use crate::probe::url_basename;
use crate::server::DownloadPayload;

verus! {

/// The type label of a file extension (lower-cased).
pub open spec fn file_type_of(ext: Seq<char>) -> Seq<char> {
    if ext.len() == 0 {
        "document"@
    } else if compressed_ext(ext) {
        "archive"@
    } else if program_ext(ext) {
        "installer"@
    } else if video_ext(ext) {
        "video"@
    } else if music_ext(ext) {
        "audio"@
    } else if document_ext(ext) {
        "document"@
    } else if picture_ext(ext) {
        "image"@
    } else if code_ext(ext) {
        "code"@
    } else {
        "document"@
    }
}

/// The category of a file extension (lower-cased).
pub open spec fn category_of(ext: Seq<char>) -> Seq<char> {
    if ext.len() == 0 {
        "document"@
    } else if compressed_ext(ext) {
        "compressed"@
    } else if program_ext(ext) {
        "installer"@
    } else if video_ext(ext) {
        "video"@
    } else if music_ext(ext) {
        "audio"@
    } else {
        "document"@
    }
}

/// The type a file is shown with, from its extension. Of a name that is
/// not plain (see `plain_name`) the platform's path rules pick the
/// extension, and only that the type is the one of some extension is stated.
pub fn detect_file_type(filename: &str) -> (r: String)
    ensures
        plain_name(filename@) ==> r@ == file_type_of(lower_ext(filename@)),
        exists|e: Seq<char>| r@ == #[trigger] file_type_of(e),
{
    let e = lower_extension(filename);
    let t = if e.len() == 0 {
        "document"
    } else if is_compressed_ext(&e) {
        "archive"
    } else if is_program_ext(&e) {
        "installer"
    } else if is_video_ext(&e) {
        "video"
    } else if is_music_ext(&e) {
        "audio"
    } else if is_document_ext(&e) {
        "document"
    } else if is_picture_ext(&e) {
        "image"
    } else if is_code_ext(&e) {
        "code"
    } else {
        "document"
    };
    let r = owned(t);
    assert(r@ == file_type_of(e@));
    r
}

/// The category a file is filed in, from its extension (for names that are
/// not plain, see `detect_file_type`).
pub fn detect_category(filename: &str) -> (r: String)
    ensures
        plain_name(filename@) ==> r@ == category_of(lower_ext(filename@)),
        exists|e: Seq<char>| r@ == #[trigger] category_of(e),
{
    let e = lower_extension(filename);
    let t = if e.len() == 0 {
        "document"
    } else if is_compressed_ext(&e) {
        "compressed"
    } else if is_program_ext(&e) {
        "installer"
    } else if is_video_ext(&e) {
        "video"
    } else if is_music_ext(&e) {
        "audio"
    } else {
        "document"
    };
    let r = owned(t);
    assert(r@ == category_of(e@));
    r
}

/// The folder name of a category.
pub open spec fn category_folder_name(cat: Seq<char>) -> Seq<char> {
    if cat == "compressed"@ {
        "Compressed"@
    } else if cat == "installer"@ {
        "Programs"@
    } else if cat == "video"@ {
        "Video"@
    } else if cat == "audio"@ {
        "Music"@
    } else {
        "Documents"@
    }
}

/// The folder name a file's category is filed under.
pub fn detect_category_name(filename: &str) -> (r: String)
    ensures
        plain_name(filename@) ==> r@ == category_folder_name(category_of(lower_ext(filename@))),
        exists|e: Seq<char>| r@ == category_folder_name(#[trigger] category_of(e)),
{
    let c = detect_category(filename);
    let cv = chars_of(c.as_str());
    let n = if eq_lit(&cv, "compressed") {
        "Compressed"
    } else if eq_lit(&cv, "installer") {
        "Programs"
    } else if eq_lit(&cv, "video") {
        "Video"
    } else if eq_lit(&cv, "audio") {
        "Music"
    } else {
        "Documents"
    };
    owned(n)
}

/// The sub-folder of `Downloads` a category (by folder name or by label) uses.
pub open spec fn category_subfolder(cat: Seq<char>) -> Seq<char> {
    if cat == "Compressed"@ || cat == "compressed"@ {
        "Compressed"@
    } else if cat == "Programs"@ || cat == "installer"@ {
        "Programs"@
    } else if cat == "Video"@ || cat == "video"@ {
        "Video"@
    } else if cat == "Music"@ || cat == "audio"@ {
        "Music"@
    } else if cat == "Documents"@ || cat == "document"@ {
        "Documents"@
    } else if cat == "Pictures"@ || cat == "image"@ {
        "Pictures"@
    } else {
        "Documents"@
    }
}

/// The folder a category's downloads go to: `<profile>\Downloads\<sub>`,
/// with the default profile when none is set.
pub open spec fn category_folder(cat: Seq<char>, profile: Option<Seq<char>>) -> Seq<char> {
    let up = match profile {
        Some(p) => p,
        None => "C:\\Users\\Default"@,
    };
    up + "\\Downloads"@ + "\\"@ + category_subfolder(cat)
}

pub fn get_category_folder(cat: &str, profile: Option<&str>) -> (r: String)
    ensures
        r@ == category_folder(cat@, match profile {
            Some(p) => Some(p@),
            None => None,
        }),
{
    let c = chars_of(cat);
    let sub = if eq_lit(&c, "Compressed") || eq_lit(&c, "compressed") {
        "Compressed"
    } else if eq_lit(&c, "Programs") || eq_lit(&c, "installer") {
        "Programs"
    } else if eq_lit(&c, "Video") || eq_lit(&c, "video") {
        "Video"
    } else if eq_lit(&c, "Music") || eq_lit(&c, "audio") {
        "Music"
    } else if eq_lit(&c, "Documents") || eq_lit(&c, "document") {
        "Documents"
    } else if eq_lit(&c, "Pictures") || eq_lit(&c, "image") {
        "Pictures"
    } else {
        "Documents"
    };
    let mut out = match profile {
        Some(p) => chars_of(p),
        None => chars_of("C:\\Users\\Default"),
    };
    append_str(&mut out, "\\Downloads");
    append_str(&mut out, "\\");
    append_str(&mut out, sub);
    string_of(&out)
}

/// Time left as shown: `—` when unknown, `Hh Mm` above an hour, `Mm Ss`
/// above a minute, else `Ss`.
pub open spec fn eta_text(secs: Option<u64>) -> Seq<char> {
    match secs {
        None => "\u{2014}"@,
        Some(s) => if s > 3600 {
            dec((s / 3600) as nat) + "h "@ + dec(((s % 3600) / 60) as nat) + "m"@
        } else if s > 60 {
            dec((s / 60) as nat) + "m "@ + dec((s % 60) as nat) + "s"@
        } else {
            dec(s as nat) + "s"@
        },
    }
}

pub fn fmt_eta(secs: Option<u64>) -> (r: String)
    ensures
        r@ == eta_text(secs),
{
    match secs {
        None => owned("\u{2014}"),
        Some(s) => {
            let mut out: Vec<char>;
            if s > 3600 {
                out = dec_u64(s / 3600);
                append_str(&mut out, "h ");
                append(&mut out, &dec_u64((s % 3600) / 60));
                append_str(&mut out, "m");
            } else if s > 60 {
                out = dec_u64(s / 60);
                append_str(&mut out, "m ");
                append(&mut out, &dec_u64(s % 60));
                append_str(&mut out, "s");
            } else {
                out = dec_u64(s);
                append_str(&mut out, "s");
            }
            string_of(&out)
        },
    }
}


/// Month and day of the civil (proleptic Gregorian) calendar for a count of
/// days since 1970-01-01 that is not negative (the days-to-civil formula).
pub open spec fn civil_month_day(days: int) -> (int, int) {
    let z = days + 719468;
    let era = z / 146097;
    let doe = z - era * 146097;
    let yoe = (doe - doe / 1460 + doe / 36524 - doe / 146096) / 365;
    let doy = doe - (365 * yoe + yoe / 4 - yoe / 100);
    let mp = (5 * doy + 2) / 153;
    let d = doy - (153 * mp + 2) / 5 + 1;
    let m = if mp < 10 {
        mp + 3
    } else {
        mp - 9
    };
    (m, d)
}

pub open spec fn month_abbrev(m: int) -> Seq<char> {
    if m == 2 {
        "Feb"@
    } else if m == 3 {
        "Mar"@
    } else if m == 4 {
        "Apr"@
    } else if m == 5 {
        "May"@
    } else if m == 6 {
        "Jun"@
    } else if m == 7 {
        "Jul"@
    } else if m == 8 {
        "Aug"@
    } else if m == 9 {
        "Sep"@
    } else if m == 10 {
        "Oct"@
    } else if m == 11 {
        "Nov"@
    } else if m == 12 {
        "Dec"@
    } else {
        "Jan"@
    }
}

/// A creation time (milliseconds since the epoch, UTC) as shown: `—` when
/// not set, else `Mon DD, HH:MM`.
pub open spec fn timestamp_text(ts_ms: i64) -> Seq<char> {
    if ts_ms <= 0 {
        "\u{2014}"@
    } else {
        let ts = ts_ms / 1000;
        let mins = (ts / 60) % 60;
        let hours = (ts / 3600) % 24;
        let (m, d) = civil_month_day(ts / 86400);
        month_abbrev(m) + " "@ + dec2(d as nat) + ", "@ + dec2(hours as nat) + ":"@ + dec2(mins as nat)
    }
}

fn pad2(n: u64) -> (r: Vec<char>)
    ensures
        r@ == dec2(n as nat),
{
    let d = dec_u64(n);
    if n < 10 {
        let mut r: Vec<char> = Vec::new();
        r.push('0');
        append(&mut r, &d);
        r
    } else {
        d
    }
}

fn month_name(m: u64) -> (r: &'static str)
    ensures
        r@ == month_abbrev(m as int),
{
    if m == 2 {
        "Feb"
    } else if m == 3 {
        "Mar"
    } else if m == 4 {
        "Apr"
    } else if m == 5 {
        "May"
    } else if m == 6 {
        "Jun"
    } else if m == 7 {
        "Jul"
    } else if m == 8 {
        "Aug"
    } else if m == 9 {
        "Sep"
    } else if m == 10 {
        "Oct"
    } else if m == 11 {
        "Nov"
    } else if m == 12 {
        "Dec"
    } else {
        "Jan"
    }
}

pub fn format_timestamp(ts_ms: i64) -> (r: String)
    ensures
        r@ == timestamp_text(ts_ms),
{
    if ts_ms <= 0 {
        return owned("\u{2014}");
    }
    let ts: u64 = (ts_ms / 1000) as u64;
    let mins_total = ts / 60;
    let mins = mins_total % 60;
    let hours = (mins_total / 60) % 24;
    assert(mins_total / 60 == ts / 3600) by (nonlinear_arith)
        requires
            mins_total == ts / 60,
    ;
    let days = ts / 86400;
    let z: u64 = days + 719468;
    let era = z / 146097;
    assert(era * 146097 <= z) by (nonlinear_arith)
        requires
            era == z / 146097,
    ;
    let doe: u64 = z - era * 146097;
    assert(doe < 146097) by (nonlinear_arith)
        requires
            era == z / 146097,
            doe == z - era * 146097,
    ;
    proof {
        lemma_year_of_era(doe as u32);
    }
    let yoe = (doe - doe / 1460 + doe / 36524 - doe / 146096) / 365;
    let doy: u64 = doe - (365 * yoe + yoe / 4 - yoe / 100);
    proof {
        lemma_month_of_year(doy as u32);
    }
    let mp: u64 = (5 * doy + 2) / 153;
    let d: u64 = doy - (153 * mp + 2) / 5 + 1;
    let m: u64 = if mp < 10 {
        mp + 3
    } else {
        mp - 9
    };
    let mut out = chars_of(month_name(m));
    append_str(&mut out, " ");
    append(&mut out, &pad2(d));
    append_str(&mut out, ", ");
    append(&mut out, &pad2(hours));
    append_str(&mut out, ":");
    append(&mut out, &pad2(mins));
    string_of(&out)
}

/// Within an era, the year's first day never lies after the day itself,
/// and the day of the year stays below 366.
proof fn lemma_year_of_era(doe: u32)
    requires
        doe < 146097,
    ensures
        ({
            let yoe = (doe - doe / 1460 + doe / 36524 - doe / 146096) / 365;
            &&& doe / 1460 <= doe
            &&& 365 * yoe + yoe / 4 - yoe / 100 <= doe
            &&& doe - (365 * yoe + yoe / 4 - yoe / 100) <= 365
        }),
{
    assert({
        let yoe = (doe - doe / 1460 + doe / 36524 - doe / 146096) / 365;
        &&& doe / 1460 <= doe
        &&& 365 * yoe + yoe / 4 - yoe / 100 <= doe
        &&& doe - (365 * yoe + yoe / 4 - yoe / 100) <= 365
    }) by (bit_vector)
        requires
            doe < 146097,
    ;
}

/// Within a year (counted from March), the month index stays below 12 and
/// the day of the month between 1 and 31.
proof fn lemma_month_of_year(doy: u32)
    requires
        doy <= 365,
    ensures
        ({
            let mp = (5 * doy + 2) / 153;
            &&& mp <= 11
            &&& (153 * mp + 2) / 5 <= doy
            &&& 1 <= doy - (153 * mp + 2) / 5 + 1 <= 31
        }),
{
    assert({
        let mp = (5 * doy + 2) / 153;
        &&& mp <= 11
        &&& (153 * mp + 2) / 5 <= doy
        &&& 1 <= doy - (153 * mp + 2) / 5 + 1 <= 31
    }) by (bit_vector)
        requires
            doy <= 365,
    ;
}

/// The calendar a creation time is shown in is well formed: for every day
/// count the month lies in 1..=12 and the day of the month in 1..=31.
pub proof fn lemma_civil_in_range(days: nat)
    requires
        days + 719468 <= u64::MAX,
    ensures
        1 <= civil_month_day(days as int).0 <= 12,
        1 <= civil_month_day(days as int).1 <= 31,
{
    let z = days + 719468;
    let era = z / 146097;
    let doe = z - era * 146097;
    assert(0 <= doe < 146097) by (nonlinear_arith)
        requires
            era == z / 146097,
            doe == z - era * 146097,
            z >= 0,
    ;
    lemma_year_of_era(doe as u32);
    let yoe = (doe - doe / 1460 + doe / 36524 - doe / 146096) / 365;
    let doy = doe - (365 * yoe + yoe / 4 - yoe / 100);
    lemma_month_of_year(doy as u32);
}


/// A pasted line with surrounding whitespace, quotes, brackets and
/// parentheses removed.
pub open spec fn cleaned_line(line: Seq<char>) -> Seq<char> {
    trim(trim_by(trim(line), Strip::Wrapping))
}

/// A cleaned line that is already a link.
pub open spec fn link_like(t: Seq<char>) -> bool {
    ||| starts_with(t, "http://"@)
    ||| starts_with(t, "https://"@)
    ||| starts_with(t, "ftp://"@)
    ||| starts_with(t, "sftp://"@)
    ||| starts_with(t, "magnet:?"@)
}

/// The first link among pasted lines: a line that is a link as it is, or a
/// `www.` host name (made an `https://` link).
pub open spec fn first_link(lines: Seq<Seq<char>>) -> Option<Seq<char>>
    decreases lines.len(),
{
    if lines.len() == 0 {
        None
    } else {
        let t = cleaned_line(lines[0]);
        if link_like(t) {
            Some(t)
        } else if starts_with(t, "www."@) && t.contains('.') {
            Some("https://"@ + t)
        } else {
            first_link(lines.skip(1))
        }
    }
}

/// The link in pasted text (see `first_link`, over its lines); none in empty text.
pub fn extract_url(text: &str) -> (r: Option<String>)
    ensures
        opt_view(r) == if text@.len() == 0 {
            None
        } else {
            first_link(split_seq(text@, '\n'))
        },
{
    let v = chars_of(text);
    if v.len() == 0 {
        return None;
    }
    let lines = split_char(&v, '\n');
    let ghost ls = lines.deep_view();
    let http = chars_of("http://");
    let https = chars_of("https://");
    let ftp = chars_of("ftp://");
    let sftp = chars_of("sftp://");
    let magnet = chars_of("magnet:?");
    let www = chars_of("www.");
    assert(ls.skip(0) =~= ls);
    for i in 0..lines.len()
        invariant
            ls == lines.deep_view(),
            ls == split_seq(text@, '\n'),
            text@.len() > 0,
            http@ == "http://"@,
            https@ == "https://"@,
            ftp@ == "ftp://"@,
            sftp@ == "sftp://"@,
            magnet@ == "magnet:?"@,
            www@ == "www."@,
            first_link(ls) == first_link(ls.skip(i as int)),
    {
        assert(lines[i as int]@ == ls[i as int]);
        assert(ls.skip(i as int)[0] == ls[i as int]);
        assert(ls.skip(i as int).skip(1) =~= ls.skip(i + 1));
        let a = strip(&lines[i], &Strip::Ws);
        let b = strip(&a, &Strip::Wrapping);
        let t = strip(&b, &Strip::Ws);
        assert(t@ == cleaned_line(ls.skip(i as int)[0]));
        if has_prefix(&t, &http) || has_prefix(&t, &https) || has_prefix(&t, &ftp) || has_prefix(
            &t,
            &sftp,
        ) || has_prefix(&t, &magnet) {
            assert(first_link(ls.skip(i as int)) == Some(t@));
            return Some(string_of(&t));
        }
        if has_prefix(&t, &www) && has_char(&t, '.') {
            let mut out = chars_of("https://");
            append(&mut out, &t);
            assert(first_link(ls.skip(i as int)) == Some(out@));
            return Some(string_of(&out));
        }
    }
    proof {
        assert(ls.skip(ls.len() as int) =~= Seq::<Seq<char>>::empty());
    }
    None
}

/// The n-th name offered for a duplicate download: `stem (n).ext`, or
/// `stem (n)` without an extension.
pub open spec fn duplicate_candidate(stem: Seq<char>, ext: Seq<char>, n: nat) -> Seq<char> {
    if ext.len() == 0 {
        stem + " ("@ + dec(n) + ")"@
    } else {
        stem + " ("@ + dec(n) + ")."@ + ext
    }
}

/// A candidate is taken: a file of that name is in the folder, or a listed
/// download in the same folder has that name (both compared in any ASCII case).
pub open spec fn duplicate_taken(
    folder: Seq<char>,
    cand: Seq<char>,
    tasks: Seq<TaskSnapshot>,
    on_disk: Seq<Seq<char>>,
) -> bool {
    ||| on_disk.contains(cand)
    ||| exists|i: int|
        0 <= i < tasks.len() && lower((#[trigger] tasks[i]).dir@) == lower(folder) && lower(
            tasks[i].filename@,
        ) == lower(cand)
}

/// The stem and extension a plain file name is split into for numbering.
pub open spec fn name_parts(filename: Seq<char>) -> (Seq<char>, Seq<char>) {
    (
        match stem_rule(filename) {
            Some(s) => s,
            None => filename,
        },
        match ext_rule(filename) {
            Some(e) => e,
            None => Seq::empty(),
        },
    )
}

/// `r` is the name offered for a duplicate with this stem and extension:
/// the first numbered candidate below 10000 that is not taken, else the
/// stem with a random id.
pub open spec fn duplicate_pick(
    folder: Seq<char>,
    stem: Seq<char>,
    ext: Seq<char>,
    tasks: Seq<TaskSnapshot>,
    on_disk: Seq<Seq<char>>,
    r: Seq<char>,
) -> bool {
    ||| exists|n: nat|
        1 <= n < 10000 && !duplicate_taken(folder, duplicate_candidate(stem, ext, n), tasks, on_disk)
            && (forall|m: nat|
            1 <= m < n ==> duplicate_taken(
                folder,
                #[trigger] duplicate_candidate(stem, ext, m),
                tasks,
                on_disk,
            )) && r == duplicate_candidate(stem, ext, n)
    ||| (forall|m: nat|
        1 <= m < 10000 ==> duplicate_taken(
            folder,
            #[trigger] duplicate_candidate(stem, ext, m),
            tasks,
            on_disk,
        )) && exists|b: Seq<u8>| b.len() == 16 && r == stem + "_"@ + hex_of(b)
}

fn listed_in(folder: &Vec<char>, cand: &Vec<char>, tasks: &Vec<TaskSnapshot>) -> (r: bool)
    ensures
        r == exists|i: int|
            0 <= i < tasks@.len() && lower((#[trigger] tasks@[i]).dir@) == lower(folder@) && lower(
                tasks@[i].filename@,
            ) == lower(cand@),
{
    for i in 0..tasks.len()
        invariant
            forall|j: int|
                0 <= j < i ==> !(lower((#[trigger] tasks@[j]).dir@) == lower(folder@) && lower(
                    tasks@[j].filename@,
                ) == lower(cand@)),
    {
        let d = chars_of(tasks[i].dir.as_str());
        let f = chars_of(tasks[i].filename.as_str());
        if eq_ignore_case(&d, folder) && eq_ignore_case(&f, cand) {
            return true;
        }
    }
    false
}

fn on_disk_has(on_disk: &Vec<String>, cand: &Vec<char>) -> (r: bool)
    ensures
        r == on_disk.deep_view().contains(cand@),
{
    for i in 0..on_disk.len()
        invariant
            forall|j: int| 0 <= j < i ==> on_disk.deep_view()[j] != cand@,
    {
        let t = chars_of(on_disk[i].as_str());
        if crate::text::vec_eq(&t, cand) {
            assert(on_disk.deep_view()[i as int] == cand@);
            return true;
        }
    }
    false
}

/// The name offered for a duplicate of a file with the given stem and
/// extension (see `duplicate_pick`); `on_disk` lists the folder's files.
pub fn next_duplicate_name(
    folder: &str,
    stem: &Vec<char>,
    ext: &Vec<char>,
    existing_tasks: &Vec<TaskSnapshot>,
    on_disk: &Vec<String>,
) -> (r: String)
    ensures
        duplicate_pick(folder@, stem@, ext@, existing_tasks@, on_disk.deep_view(), r@),
{
    let fv = chars_of(folder);
    let mut n: u64 = 1;
    while n < 10000
        invariant
            1 <= n <= 10000,
            fv@ == folder@,
            forall|m: nat|
                1 <= m < n ==> duplicate_taken(
                    folder@,
                    #[trigger] duplicate_candidate(stem@, ext@, m),
                    existing_tasks@,
                    on_disk.deep_view(),
                ),
        decreases 10000 - n,
    {
        let d = dec_u64(n);
        let mut cand = stem.clone();
        append_str(&mut cand, " (");
        append(&mut cand, &d);
        if ext.len() == 0 {
            append_str(&mut cand, ")");
        } else {
            append_str(&mut cand, ").");
            append(&mut cand, ext);
        }
        assert(cand@ == duplicate_candidate(stem@, ext@, n as nat));
        if !on_disk_has(on_disk, &cand) && !listed_in(&fv, &cand, existing_tasks) {
            return string_of(&cand);
        }
        n = n + 1;
    }
    let id = new_id();
    let mut out = stem.clone();
    append_str(&mut out, "_");
    append_str(&mut out, id.as_str());
    string_of(&out)
}

/// The name offered when a download would duplicate another: the file name
/// is split into stem and extension by `Path::file_stem` and
/// `Path::extension` (for a plain name, `name_parts`), then numbered (see
/// `next_duplicate_name`). Of a name that is not plain the platform's path
/// rules pick the parts, and only that some split was numbered is stated.
pub fn compute_next_duplicate_name(
    folder: &str,
    filename: &str,
    existing_tasks: &Vec<TaskSnapshot>,
    on_disk: &Vec<String>,
) -> (r: String)
    ensures
        plain_name(filename@) ==> duplicate_pick(
            folder@,
            name_parts(filename@).0,
            name_parts(filename@).1,
            existing_tasks@,
            on_disk.deep_view(),
            r@,
        ),
        exists|stem: Seq<char>, ext: Seq<char>|
            #[trigger] duplicate_pick(folder@, stem, ext, existing_tasks@, on_disk.deep_view(), r@),
{
    let ext: Vec<char> = match path_extension(filename) {
        Some(e) => chars_of(e.as_str()),
        None => Vec::new(),
    };
    let stem: Vec<char> = match path_file_stem(filename) {
        Some(s) => chars_of(s.as_str()),
        None => chars_of(filename),
    };
    next_duplicate_name(folder, &stem, &ext, existing_tasks, on_disk)
}

/// The text columns of a row in the download list (the progress bar and
/// the size and speed texts are drawn from floating-point values by the
/// interface).
pub struct ListItem {
    pub id: String,
    pub filename: String,
    pub url: String,
    pub referrer: String,
    pub status: String,
    pub eta: String,
    pub date_text: String,
    pub file_type: String,
    pub category: String,
    pub selected: bool,
    pub error_msg: String,
}

/// The row shown for a download: its own texts, the time-left and date
/// texts, the type and category of its file name (see `detect_file_type`
/// for names that are not plain), and its error or nothing.
pub fn list_item(s: &TaskSnapshot, selected: bool) -> (r: ListItem)
    ensures
        r.id@ == s.id@,
        r.filename@ == s.filename@,
        r.url@ == s.url@,
        r.referrer@ == s.referrer@,
        r.status@ == s.status@,
        r.eta@ == eta_text(s.eta_secs),
        r.date_text@ == timestamp_text(s.created_at),
        plain_name(s.filename@) ==> r.file_type@ == file_type_of(lower_ext(s.filename@)),
        plain_name(s.filename@) ==> r.category@ == category_of(lower_ext(s.filename@)),
        exists|e: Seq<char>| r.file_type@ == #[trigger] file_type_of(e),
        exists|e: Seq<char>| r.category@ == #[trigger] category_of(e),
        r.selected == selected,
        r.error_msg@ == match &s.error_msg {
            Some(e) => e@,
            None => Seq::<char>::empty(),
        },
{
    ListItem {
        id: s.id.clone(),
        filename: s.filename.clone(),
        url: s.url.clone(),
        referrer: s.referrer.clone(),
        status: s.status.clone(),
        eta: fmt_eta(s.eta_secs),
        date_text: format_timestamp(s.created_at),
        file_type: detect_file_type(s.filename.as_str()),
        category: detect_category(s.filename.as_str()),
        selected,
        error_msg: match &s.error_msg {
            Some(e) => e.clone(),
            None => String::new(),
        },
    }
}

/// What the progress window's pause button does: pause a task that is
/// downloading or connecting, resume any other.
#[derive(Clone, Copy, Debug, PartialEq, Eq, Structural)]
pub enum ToggleAction {
    Pause,
    Resume,
}

pub fn toggle_action(status: &str) -> (r: ToggleAction)
    ensures
        r == if status@ == "downloading"@ || status@ == "connecting"@ {
            ToggleAction::Pause
        } else {
            ToggleAction::Resume
        },
{
    let v = chars_of(status);
    if eq_lit(&v, "downloading") || eq_lit(&v, "connecting") {
        ToggleAction::Pause
    } else {
        ToggleAction::Resume
    }
}

/// The status line of a progress window.
pub fn progress_status_text(status: &str) -> (r: String)
    ensures
        r@ == if status@ == "downloading"@ {
            "Receiving data..."@
        } else {
            status@
        },
{
    let v = chars_of(status);
    if eq_lit(&v, "downloading") {
        owned("Receiving data...")
    } else {
        owned(status)
    }
}

/// Where the n-th open progress window is shifted to (in pixels, on both
/// axes), so that windows do not cover each other exactly.
pub fn window_offset(open_windows: u32) -> (r: u32)
    requires
        open_windows * 35 <= u32::MAX,
    ensures
        r == (open_windows * 35) % 280,
{
    (open_windows * 35) % 280
}

/// The saved file's full path as the progress window shows it.
pub fn save_path(dir: &str, filename: &str) -> (r: String)
    ensures
        r@ == dir@ + "\\"@ + filename@,
{
    let mut v = chars_of(dir);
    append_str(&mut v, "\\");
    append_str(&mut v, filename);
    string_of(&v)
}

/// What a renew-link dialog is opened with: the page to renew the link from
/// (the referrer, else the link itself) and the error to show.
pub fn renew_context(snap: &TaskSnapshot) -> (r: (String, String))
    ensures
        r.0@ == if snap.referrer@.len() == 0 {
            snap.url@
        } else {
            snap.referrer@
        },
        r.1@ == match snap.error_msg {
            Some(e) => e@,
            None => "Download failed"@,
        },
{
    let page = if snap.referrer.as_str().is_empty() {
        snap.url.clone()
    } else {
        snap.referrer.clone()
    };
    let err = match &snap.error_msg {
        Some(e) => e.clone(),
        None => owned("Download failed"),
    };
    (page, err)
}

/// Give unused memory back to the system. This build has nothing to trim.
pub fn trim_working_set() {
}


/// The name proposed for a download the browser handed over: its own name
/// unless that is a placeholder, else a name inferred from the link (with a
/// dot), else its own non-empty name, else `download`.
pub open spec fn handed_over_name(url: Seq<char>, filename: Seq<char>) -> Seq<char> {
    if placeholder_name(filename) {
        match link_name(url) {
            Some(n) if n.contains('.') && n.len() > 0 => n,
            _ => if filename.len() > 0 {
                filename
            } else {
                "download"@
            },
        }
    } else {
        filename
    }
}

pub fn payload_filename(p: &DownloadPayload) -> (r: String)
    ensures
        r@ == handed_over_name(p.url@, p.filename@),
{
    let f = chars_of(p.filename.as_str());
    let placeholder = f.len() == 0 || eq_lit(&f, "main") || eq_lit(&f, "master") || eq_lit(&f, "download")
        || !has_char(&f, '.');
    if !placeholder {
        return p.filename.clone();
    }
    match url_basename(p.url.as_str()) {
        Some(n) => {
            let nv = chars_of(n.as_str());
            if has_char(&nv, '.') && nv.len() > 0 {
                return n;
            }
        },
        None => {},
    }
    if f.len() > 0 {
        p.filename.clone()
    } else {
        owned("download")
    }
}

/// The request headers a handed-over download carries: its cookies, its
/// referrer and its user agent, each when given.
pub open spec fn handed_over_headers(p: DownloadPayload) -> Seq<(Seq<char>, Seq<char>)> {
    let a: Seq<(Seq<char>, Seq<char>)> = if p.cookies@.len() > 0 {
        seq![("Cookie"@, p.cookies@)]
    } else {
        Seq::empty()
    };
    let b = if p.referrer@.len() > 0 {
        a.push(("Referer"@, p.referrer@))
    } else {
        a
    };
    if p.user_agent@.len() > 0 {
        b.push(("User-Agent"@, p.user_agent@))
    } else {
        b
    }
}

pub fn payload_headers(p: &DownloadPayload) -> (r: Vec<(String, String)>)
    ensures
        r.deep_view() == handed_over_headers(*p),
{
    let mut h: Vec<(String, String)> = Vec::new();
    if !p.cookies.as_str().is_empty() {
        h.push((owned("Cookie"), p.cookies.clone()));
    }
    if !p.referrer.as_str().is_empty() {
        h.push((owned("Referer"), p.referrer.clone()));
    }
    if !p.user_agent.as_str().is_empty() {
        h.push((owned("User-Agent"), p.user_agent.clone()));
    }
    assert(h.deep_view() =~= handed_over_headers(*p));
    h
}

/// A listed download conflicts with a new one: same name in the same folder
/// (in any ASCII case), or the same non-empty link.
pub open spec fn conflicts(t: TaskSnapshot, filename: Seq<char>, folder: Seq<char>, url: Seq<char>) -> bool {
    (lower(t.filename@) == lower(filename) && lower(t.dir@) == lower(folder)) || (t.url@ == url
        && url.len() > 0)
}

/// The first listed download a new one conflicts with, if any.
pub fn find_conflict(tasks: &Vec<TaskSnapshot>, filename: &str, folder: &str, url: &str) -> (r: Option<usize>)
    ensures
        match r {
            Some(i) => i < tasks@.len() && conflicts(tasks@[i as int], filename@, folder@, url@) && forall|j: int|
                0 <= j < i ==> !conflicts(#[trigger] tasks@[j], filename@, folder@, url@),
            None => forall|j: int|
                0 <= j < tasks@.len() ==> !conflicts(#[trigger] tasks@[j], filename@, folder@, url@),
        },
{
    let fv = chars_of(filename);
    let dv = chars_of(folder);
    let uv = chars_of(url);
    for i in 0..tasks.len()
        invariant
            fv@ == filename@,
            dv@ == folder@,
            uv@ == url@,
            forall|j: int| 0 <= j < i ==> !conflicts(#[trigger] tasks@[j], filename@, folder@, url@),
    {
        let tf = chars_of(tasks[i].filename.as_str());
        let td = chars_of(tasks[i].dir.as_str());
        let tu = chars_of(tasks[i].url.as_str());
        if (eq_ignore_case(&tf, &fv) && eq_ignore_case(&td, &dv)) || (crate::text::vec_eq(&tu, &uv)
            && uv.len() > 0) {
            return Some(i);
        }
    }
    None
}

/// The command-line flags that mean "started with the system" (start hidden).
pub open spec fn autostart_flag(a: Seq<char>) -> bool {
    a == "--autostart"@ || a == "--minimized"@ || a == "--startup"@ || a == "--tray"@ || a
        == "--background"@
}

pub fn is_autostart(args: &Vec<String>) -> (r: bool)
    ensures
        r == exists|i: int| 0 <= i < args@.len() && autostart_flag(#[trigger] args@[i]@),
{
    for i in 0..args.len()
        invariant
            forall|j: int| 0 <= j < i ==> !autostart_flag(#[trigger] args@[j]@),
    {
        let a = chars_of(args[i].as_str());
        if eq_lit(&a, "--autostart") || eq_lit(&a, "--minimized") || eq_lit(&a, "--startup") || eq_lit(
            &a,
            "--tray",
        ) || eq_lit(&a, "--background") {
            return true;
        }
    }
    false
}

/// The type label of each extension: archives, installers, videos, audio,
/// documents, images and source code by their extension lists; no
/// extension, or any other, is a document.
pub proof fn lemma_file_type_labels(e: Seq<char>)
    ensures
        e == "zip"@ || e == "rar"@ || e == "7z"@ || e == "tar"@ || e == "gz"@ || e == "bz2"@ || e == "xz"@ || e == "iso"@ || e == "dmg"@ || e == "pkg"@ || e == "tgz"@ ==> file_type_of(e) == "archive"@,
        e == "exe"@ || e == "msi"@ || e == "apk"@ || e == "deb"@ || e == "rpm"@ || e == "appimage"@ || e == "bat"@ || e == "cmd"@ || e == "ps1"@ ==> file_type_of(e) == "installer"@,
        e == "mp4"@ || e == "mkv"@ || e == "mov"@ || e == "avi"@ || e == "wmv"@ || e == "flv"@ || e == "webm"@ || e == "m4v"@ || e == "m2ts"@ ==> file_type_of(e) == "video"@,
        e == "mp3"@ || e == "wav"@ || e == "flac"@ || e == "aac"@ || e == "ogg"@ || e == "m4a"@ || e == "wma"@ || e == "opus"@ ==> file_type_of(e) == "audio"@,
        e == "pdf"@ || e == "doc"@ || e == "docx"@ || e == "xls"@ || e == "xlsx"@ || e == "ppt"@ || e == "pptx"@ || e == "txt"@ || e == "epub"@ || e == "md"@ ==> file_type_of(e) == "document"@,
        e == "png"@ || e == "jpg"@ || e == "jpeg"@ || e == "gif"@ || e == "webp"@ || e == "svg"@ || e == "bmp"@ || e == "ico"@ || e == "tiff"@ ==> file_type_of(e) == "image"@,
        e == "rs"@ || e == "js"@ || e == "ts"@ || e == "py"@ || e == "c"@ || e == "cpp"@ || e == "h"@ || e == "html"@ || e == "css"@ || e == "json"@ || e == "xml"@ || e == "toml"@ || e == "yaml"@ ==> file_type_of(e) == "code"@,
        e.len() == 0 ==> file_type_of(e) == "document"@,
        e != "zip"@ && e != "rar"@ && e != "7z"@ && e != "tar"@ && e != "gz"@ && e != "bz2"@ && e != "xz"@ && e != "iso"@ && e != "dmg"@ && e != "pkg"@ && e != "tgz"@ && e != "exe"@ && e != "msi"@ && e != "apk"@ && e != "deb"@ && e != "rpm"@ && e != "appimage"@ && e != "bat"@ && e != "cmd"@ && e != "ps1"@ && e != "mp4"@ && e != "mkv"@ && e != "mov"@ && e != "avi"@ && e != "wmv"@ && e != "flv"@ && e != "webm"@ && e != "m4v"@ && e != "m2ts"@ && e != "mp3"@ && e != "wav"@ && e != "flac"@ && e != "aac"@ && e != "ogg"@ && e != "m4a"@ && e != "wma"@ && e != "opus"@ && e != "pdf"@ && e != "doc"@ && e != "docx"@ && e != "xls"@ && e != "xlsx"@ && e != "ppt"@ && e != "pptx"@ && e != "txt"@ && e != "epub"@ && e != "md"@ && e != "png"@ && e != "jpg"@ && e != "jpeg"@ && e != "gif"@ && e != "webp"@ && e != "svg"@ && e != "bmp"@ && e != "ico"@ && e != "tiff"@ && e != "rs"@ && e != "js"@ && e != "ts"@ && e != "py"@ && e != "c"@ && e != "cpp"@ && e != "h"@ && e != "html"@ && e != "css"@ && e != "json"@ && e != "xml"@ && e != "toml"@ && e != "yaml"@ ==> file_type_of(e) == "document"@,
{
    if e == "zip"@ {
        reveal_strlit("zip");
        assert(e.len() == 3 && e[0] == 'z' && e[1] == 'i' && e[2] == 'p');
    }
    if e == "rar"@ {
        reveal_strlit("rar");
        assert(e.len() == 3 && e[0] == 'r' && e[1] == 'a' && e[2] == 'r');
    }
    if e == "7z"@ {
        reveal_strlit("7z");
        assert(e.len() == 2 && e[0] == '7' && e[1] == 'z');
    }
    if e == "tar"@ {
        reveal_strlit("tar");
        assert(e.len() == 3 && e[0] == 't' && e[1] == 'a' && e[2] == 'r');
    }
    if e == "gz"@ {
        reveal_strlit("gz");
        assert(e.len() == 2 && e[0] == 'g' && e[1] == 'z');
    }
    if e == "bz2"@ {
        reveal_strlit("bz2");
        assert(e.len() == 3 && e[0] == 'b' && e[1] == 'z' && e[2] == '2');
    }
    if e == "xz"@ {
        reveal_strlit("xz");
        assert(e.len() == 2 && e[0] == 'x' && e[1] == 'z');
    }
    if e == "iso"@ {
        reveal_strlit("iso");
        assert(e.len() == 3 && e[0] == 'i' && e[1] == 's' && e[2] == 'o');
    }
    if e == "dmg"@ {
        reveal_strlit("dmg");
        assert(e.len() == 3 && e[0] == 'd' && e[1] == 'm' && e[2] == 'g');
    }
    if e == "pkg"@ {
        reveal_strlit("pkg");
        assert(e.len() == 3 && e[0] == 'p' && e[1] == 'k' && e[2] == 'g');
    }
    if e == "tgz"@ {
        reveal_strlit("tgz");
        assert(e.len() == 3 && e[0] == 't' && e[1] == 'g' && e[2] == 'z');
    }
    if e == "exe"@ {
        reveal_strlit("exe");
        assert(e.len() == 3 && e[0] == 'e' && e[1] == 'x' && e[2] == 'e');
        reveal_strlit("zip"); assert(e != "zip"@) by { assert("zip"@[0] == 'z'); }
        reveal_strlit("rar"); assert(e != "rar"@) by { assert("rar"@[0] == 'r'); }
        reveal_strlit("7z"); assert(e != "7z"@) by { assert("7z"@.len() == 2); }
        reveal_strlit("tar"); assert(e != "tar"@) by { assert("tar"@[0] == 't'); }
        reveal_strlit("gz"); assert(e != "gz"@) by { assert("gz"@.len() == 2); }
        reveal_strlit("bz2"); assert(e != "bz2"@) by { assert("bz2"@[0] == 'b'); }
        reveal_strlit("xz"); assert(e != "xz"@) by { assert("xz"@.len() == 2); }
        reveal_strlit("iso"); assert(e != "iso"@) by { assert("iso"@[0] == 'i'); }
        reveal_strlit("dmg"); assert(e != "dmg"@) by { assert("dmg"@[0] == 'd'); }
        reveal_strlit("pkg"); assert(e != "pkg"@) by { assert("pkg"@[0] == 'p'); }
        reveal_strlit("tgz"); assert(e != "tgz"@) by { assert("tgz"@[0] == 't'); }
    }
    if e == "msi"@ {
        reveal_strlit("msi");
        assert(e.len() == 3 && e[0] == 'm' && e[1] == 's' && e[2] == 'i');
        reveal_strlit("zip"); assert(e != "zip"@) by { assert("zip"@[0] == 'z'); }
        reveal_strlit("rar"); assert(e != "rar"@) by { assert("rar"@[0] == 'r'); }
        reveal_strlit("7z"); assert(e != "7z"@) by { assert("7z"@.len() == 2); }
        reveal_strlit("tar"); assert(e != "tar"@) by { assert("tar"@[0] == 't'); }
        reveal_strlit("gz"); assert(e != "gz"@) by { assert("gz"@.len() == 2); }
        reveal_strlit("bz2"); assert(e != "bz2"@) by { assert("bz2"@[0] == 'b'); }
        reveal_strlit("xz"); assert(e != "xz"@) by { assert("xz"@.len() == 2); }
        reveal_strlit("iso"); assert(e != "iso"@) by { assert("iso"@[0] == 'i'); }
        reveal_strlit("dmg"); assert(e != "dmg"@) by { assert("dmg"@[0] == 'd'); }
        reveal_strlit("pkg"); assert(e != "pkg"@) by { assert("pkg"@[0] == 'p'); }
        reveal_strlit("tgz"); assert(e != "tgz"@) by { assert("tgz"@[0] == 't'); }
    }
    if e == "apk"@ {
        reveal_strlit("apk");
        assert(e.len() == 3 && e[0] == 'a' && e[1] == 'p' && e[2] == 'k');
        reveal_strlit("zip"); assert(e != "zip"@) by { assert("zip"@[0] == 'z'); }
        reveal_strlit("rar"); assert(e != "rar"@) by { assert("rar"@[0] == 'r'); }
        reveal_strlit("7z"); assert(e != "7z"@) by { assert("7z"@.len() == 2); }
        reveal_strlit("tar"); assert(e != "tar"@) by { assert("tar"@[0] == 't'); }
        reveal_strlit("gz"); assert(e != "gz"@) by { assert("gz"@.len() == 2); }
        reveal_strlit("bz2"); assert(e != "bz2"@) by { assert("bz2"@[0] == 'b'); }
        reveal_strlit("xz"); assert(e != "xz"@) by { assert("xz"@.len() == 2); }
        reveal_strlit("iso"); assert(e != "iso"@) by { assert("iso"@[0] == 'i'); }
        reveal_strlit("dmg"); assert(e != "dmg"@) by { assert("dmg"@[0] == 'd'); }
        reveal_strlit("pkg"); assert(e != "pkg"@) by { assert("pkg"@[0] == 'p'); }
        reveal_strlit("tgz"); assert(e != "tgz"@) by { assert("tgz"@[0] == 't'); }
    }
    if e == "deb"@ {
        reveal_strlit("deb");
        assert(e.len() == 3 && e[0] == 'd' && e[1] == 'e' && e[2] == 'b');
        reveal_strlit("zip"); assert(e != "zip"@) by { assert("zip"@[0] == 'z'); }
        reveal_strlit("rar"); assert(e != "rar"@) by { assert("rar"@[0] == 'r'); }
        reveal_strlit("7z"); assert(e != "7z"@) by { assert("7z"@.len() == 2); }
        reveal_strlit("tar"); assert(e != "tar"@) by { assert("tar"@[0] == 't'); }
        reveal_strlit("gz"); assert(e != "gz"@) by { assert("gz"@.len() == 2); }
        reveal_strlit("bz2"); assert(e != "bz2"@) by { assert("bz2"@[0] == 'b'); }
        reveal_strlit("xz"); assert(e != "xz"@) by { assert("xz"@.len() == 2); }
        reveal_strlit("iso"); assert(e != "iso"@) by { assert("iso"@[0] == 'i'); }
        reveal_strlit("dmg"); assert(e != "dmg"@) by { assert("dmg"@[1] == 'm'); }
        reveal_strlit("pkg"); assert(e != "pkg"@) by { assert("pkg"@[0] == 'p'); }
        reveal_strlit("tgz"); assert(e != "tgz"@) by { assert("tgz"@[0] == 't'); }
    }
    if e == "rpm"@ {
        reveal_strlit("rpm");
        assert(e.len() == 3 && e[0] == 'r' && e[1] == 'p' && e[2] == 'm');
        reveal_strlit("zip"); assert(e != "zip"@) by { assert("zip"@[0] == 'z'); }
        reveal_strlit("rar"); assert(e != "rar"@) by { assert("rar"@[1] == 'a'); }
        reveal_strlit("7z"); assert(e != "7z"@) by { assert("7z"@.len() == 2); }
        reveal_strlit("tar"); assert(e != "tar"@) by { assert("tar"@[0] == 't'); }
        reveal_strlit("gz"); assert(e != "gz"@) by { assert("gz"@.len() == 2); }
        reveal_strlit("bz2"); assert(e != "bz2"@) by { assert("bz2"@[0] == 'b'); }
        reveal_strlit("xz"); assert(e != "xz"@) by { assert("xz"@.len() == 2); }
        reveal_strlit("iso"); assert(e != "iso"@) by { assert("iso"@[0] == 'i'); }
        reveal_strlit("dmg"); assert(e != "dmg"@) by { assert("dmg"@[0] == 'd'); }
        reveal_strlit("pkg"); assert(e != "pkg"@) by { assert("pkg"@[0] == 'p'); }
        reveal_strlit("tgz"); assert(e != "tgz"@) by { assert("tgz"@[0] == 't'); }
    }
    if e == "appimage"@ {
        reveal_strlit("appimage");
        assert(e.len() == 8 && e[0] == 'a' && e[1] == 'p' && e[2] == 'p' && e[3] == 'i' && e[4] == 'm' && e[5] == 'a' && e[6] == 'g' && e[7] == 'e');
        reveal_strlit("zip"); assert(e != "zip"@) by { assert("zip"@.len() == 3); }
        reveal_strlit("rar"); assert(e != "rar"@) by { assert("rar"@.len() == 3); }
        reveal_strlit("7z"); assert(e != "7z"@) by { assert("7z"@.len() == 2); }
        reveal_strlit("tar"); assert(e != "tar"@) by { assert("tar"@.len() == 3); }
        reveal_strlit("gz"); assert(e != "gz"@) by { assert("gz"@.len() == 2); }
        reveal_strlit("bz2"); assert(e != "bz2"@) by { assert("bz2"@.len() == 3); }
        reveal_strlit("xz"); assert(e != "xz"@) by { assert("xz"@.len() == 2); }
        reveal_strlit("iso"); assert(e != "iso"@) by { assert("iso"@.len() == 3); }
        reveal_strlit("dmg"); assert(e != "dmg"@) by { assert("dmg"@.len() == 3); }
        reveal_strlit("pkg"); assert(e != "pkg"@) by { assert("pkg"@.len() == 3); }
        reveal_strlit("tgz"); assert(e != "tgz"@) by { assert("tgz"@.len() == 3); }
    }
    if e == "bat"@ {
        reveal_strlit("bat");
        assert(e.len() == 3 && e[0] == 'b' && e[1] == 'a' && e[2] == 't');
        reveal_strlit("zip"); assert(e != "zip"@) by { assert("zip"@[0] == 'z'); }
        reveal_strlit("rar"); assert(e != "rar"@) by { assert("rar"@[0] == 'r'); }
        reveal_strlit("7z"); assert(e != "7z"@) by { assert("7z"@.len() == 2); }
        reveal_strlit("tar"); assert(e != "tar"@) by { assert("tar"@[0] == 't'); }
        reveal_strlit("gz"); assert(e != "gz"@) by { assert("gz"@.len() == 2); }
        reveal_strlit("bz2"); assert(e != "bz2"@) by { assert("bz2"@[1] == 'z'); }
        reveal_strlit("xz"); assert(e != "xz"@) by { assert("xz"@.len() == 2); }
        reveal_strlit("iso"); assert(e != "iso"@) by { assert("iso"@[0] == 'i'); }
        reveal_strlit("dmg"); assert(e != "dmg"@) by { assert("dmg"@[0] == 'd'); }
        reveal_strlit("pkg"); assert(e != "pkg"@) by { assert("pkg"@[0] == 'p'); }
        reveal_strlit("tgz"); assert(e != "tgz"@) by { assert("tgz"@[0] == 't'); }
    }
    if e == "cmd"@ {
        reveal_strlit("cmd");
        assert(e.len() == 3 && e[0] == 'c' && e[1] == 'm' && e[2] == 'd');
        reveal_strlit("zip"); assert(e != "zip"@) by { assert("zip"@[0] == 'z'); }
        reveal_strlit("rar"); assert(e != "rar"@) by { assert("rar"@[0] == 'r'); }
        reveal_strlit("7z"); assert(e != "7z"@) by { assert("7z"@.len() == 2); }
        reveal_strlit("tar"); assert(e != "tar"@) by { assert("tar"@[0] == 't'); }
        reveal_strlit("gz"); assert(e != "gz"@) by { assert("gz"@.len() == 2); }
        reveal_strlit("bz2"); assert(e != "bz2"@) by { assert("bz2"@[0] == 'b'); }
        reveal_strlit("xz"); assert(e != "xz"@) by { assert("xz"@.len() == 2); }
        reveal_strlit("iso"); assert(e != "iso"@) by { assert("iso"@[0] == 'i'); }
        reveal_strlit("dmg"); assert(e != "dmg"@) by { assert("dmg"@[0] == 'd'); }
        reveal_strlit("pkg"); assert(e != "pkg"@) by { assert("pkg"@[0] == 'p'); }
        reveal_strlit("tgz"); assert(e != "tgz"@) by { assert("tgz"@[0] == 't'); }
    }
    if e == "ps1"@ {
        reveal_strlit("ps1");
        assert(e.len() == 3 && e[0] == 'p' && e[1] == 's' && e[2] == '1');
        reveal_strlit("zip"); assert(e != "zip"@) by { assert("zip"@[0] == 'z'); }
        reveal_strlit("rar"); assert(e != "rar"@) by { assert("rar"@[0] == 'r'); }
        reveal_strlit("7z"); assert(e != "7z"@) by { assert("7z"@.len() == 2); }
        reveal_strlit("tar"); assert(e != "tar"@) by { assert("tar"@[0] == 't'); }
        reveal_strlit("gz"); assert(e != "gz"@) by { assert("gz"@.len() == 2); }
        reveal_strlit("bz2"); assert(e != "bz2"@) by { assert("bz2"@[0] == 'b'); }
        reveal_strlit("xz"); assert(e != "xz"@) by { assert("xz"@.len() == 2); }
        reveal_strlit("iso"); assert(e != "iso"@) by { assert("iso"@[0] == 'i'); }
        reveal_strlit("dmg"); assert(e != "dmg"@) by { assert("dmg"@[0] == 'd'); }
        reveal_strlit("pkg"); assert(e != "pkg"@) by { assert("pkg"@[1] == 'k'); }
        reveal_strlit("tgz"); assert(e != "tgz"@) by { assert("tgz"@[0] == 't'); }
    }
    if e == "mp4"@ {
        reveal_strlit("mp4");
        assert(e.len() == 3 && e[0] == 'm' && e[1] == 'p' && e[2] == '4');
        reveal_strlit("zip"); assert(e != "zip"@) by { assert("zip"@[0] == 'z'); }
        reveal_strlit("rar"); assert(e != "rar"@) by { assert("rar"@[0] == 'r'); }
        reveal_strlit("7z"); assert(e != "7z"@) by { assert("7z"@.len() == 2); }
        reveal_strlit("tar"); assert(e != "tar"@) by { assert("tar"@[0] == 't'); }
        reveal_strlit("gz"); assert(e != "gz"@) by { assert("gz"@.len() == 2); }
        reveal_strlit("bz2"); assert(e != "bz2"@) by { assert("bz2"@[0] == 'b'); }
        reveal_strlit("xz"); assert(e != "xz"@) by { assert("xz"@.len() == 2); }
        reveal_strlit("iso"); assert(e != "iso"@) by { assert("iso"@[0] == 'i'); }
        reveal_strlit("dmg"); assert(e != "dmg"@) by { assert("dmg"@[0] == 'd'); }
        reveal_strlit("pkg"); assert(e != "pkg"@) by { assert("pkg"@[0] == 'p'); }
        reveal_strlit("tgz"); assert(e != "tgz"@) by { assert("tgz"@[0] == 't'); }
        reveal_strlit("exe"); assert(e != "exe"@) by { assert("exe"@[0] == 'e'); }
        reveal_strlit("msi"); assert(e != "msi"@) by { assert("msi"@[1] == 's'); }
        reveal_strlit("apk"); assert(e != "apk"@) by { assert("apk"@[0] == 'a'); }
        reveal_strlit("deb"); assert(e != "deb"@) by { assert("deb"@[0] == 'd'); }
        reveal_strlit("rpm"); assert(e != "rpm"@) by { assert("rpm"@[0] == 'r'); }
        reveal_strlit("appimage"); assert(e != "appimage"@) by { assert("appimage"@.len() == 8); }
        reveal_strlit("bat"); assert(e != "bat"@) by { assert("bat"@[0] == 'b'); }
        reveal_strlit("cmd"); assert(e != "cmd"@) by { assert("cmd"@[0] == 'c'); }
        reveal_strlit("ps1"); assert(e != "ps1"@) by { assert("ps1"@[0] == 'p'); }
    }
    if e == "mkv"@ {
        reveal_strlit("mkv");
        assert(e.len() == 3 && e[0] == 'm' && e[1] == 'k' && e[2] == 'v');
        reveal_strlit("zip"); assert(e != "zip"@) by { assert("zip"@[0] == 'z'); }
        reveal_strlit("rar"); assert(e != "rar"@) by { assert("rar"@[0] == 'r'); }
        reveal_strlit("7z"); assert(e != "7z"@) by { assert("7z"@.len() == 2); }
        reveal_strlit("tar"); assert(e != "tar"@) by { assert("tar"@[0] == 't'); }
        reveal_strlit("gz"); assert(e != "gz"@) by { assert("gz"@.len() == 2); }
        reveal_strlit("bz2"); assert(e != "bz2"@) by { assert("bz2"@[0] == 'b'); }
        reveal_strlit("xz"); assert(e != "xz"@) by { assert("xz"@.len() == 2); }
        reveal_strlit("iso"); assert(e != "iso"@) by { assert("iso"@[0] == 'i'); }
        reveal_strlit("dmg"); assert(e != "dmg"@) by { assert("dmg"@[0] == 'd'); }
        reveal_strlit("pkg"); assert(e != "pkg"@) by { assert("pkg"@[0] == 'p'); }
        reveal_strlit("tgz"); assert(e != "tgz"@) by { assert("tgz"@[0] == 't'); }
        reveal_strlit("exe"); assert(e != "exe"@) by { assert("exe"@[0] == 'e'); }
        reveal_strlit("msi"); assert(e != "msi"@) by { assert("msi"@[1] == 's'); }
        reveal_strlit("apk"); assert(e != "apk"@) by { assert("apk"@[0] == 'a'); }
        reveal_strlit("deb"); assert(e != "deb"@) by { assert("deb"@[0] == 'd'); }
        reveal_strlit("rpm"); assert(e != "rpm"@) by { assert("rpm"@[0] == 'r'); }
        reveal_strlit("appimage"); assert(e != "appimage"@) by { assert("appimage"@.len() == 8); }
        reveal_strlit("bat"); assert(e != "bat"@) by { assert("bat"@[0] == 'b'); }
        reveal_strlit("cmd"); assert(e != "cmd"@) by { assert("cmd"@[0] == 'c'); }
        reveal_strlit("ps1"); assert(e != "ps1"@) by { assert("ps1"@[0] == 'p'); }
    }
    if e == "mov"@ {
        reveal_strlit("mov");
        assert(e.len() == 3 && e[0] == 'm' && e[1] == 'o' && e[2] == 'v');
        reveal_strlit("zip"); assert(e != "zip"@) by { assert("zip"@[0] == 'z'); }
        reveal_strlit("rar"); assert(e != "rar"@) by { assert("rar"@[0] == 'r'); }
        reveal_strlit("7z"); assert(e != "7z"@) by { assert("7z"@.len() == 2); }
        reveal_strlit("tar"); assert(e != "tar"@) by { assert("tar"@[0] == 't'); }
        reveal_strlit("gz"); assert(e != "gz"@) by { assert("gz"@.len() == 2); }
        reveal_strlit("bz2"); assert(e != "bz2"@) by { assert("bz2"@[0] == 'b'); }
        reveal_strlit("xz"); assert(e != "xz"@) by { assert("xz"@.len() == 2); }
        reveal_strlit("iso"); assert(e != "iso"@) by { assert("iso"@[0] == 'i'); }
        reveal_strlit("dmg"); assert(e != "dmg"@) by { assert("dmg"@[0] == 'd'); }
        reveal_strlit("pkg"); assert(e != "pkg"@) by { assert("pkg"@[0] == 'p'); }
        reveal_strlit("tgz"); assert(e != "tgz"@) by { assert("tgz"@[0] == 't'); }
        reveal_strlit("exe"); assert(e != "exe"@) by { assert("exe"@[0] == 'e'); }
        reveal_strlit("msi"); assert(e != "msi"@) by { assert("msi"@[1] == 's'); }
        reveal_strlit("apk"); assert(e != "apk"@) by { assert("apk"@[0] == 'a'); }
        reveal_strlit("deb"); assert(e != "deb"@) by { assert("deb"@[0] == 'd'); }
        reveal_strlit("rpm"); assert(e != "rpm"@) by { assert("rpm"@[0] == 'r'); }
        reveal_strlit("appimage"); assert(e != "appimage"@) by { assert("appimage"@.len() == 8); }
        reveal_strlit("bat"); assert(e != "bat"@) by { assert("bat"@[0] == 'b'); }
        reveal_strlit("cmd"); assert(e != "cmd"@) by { assert("cmd"@[0] == 'c'); }
        reveal_strlit("ps1"); assert(e != "ps1"@) by { assert("ps1"@[0] == 'p'); }
    }
    if e == "avi"@ {
        reveal_strlit("avi");
        assert(e.len() == 3 && e[0] == 'a' && e[1] == 'v' && e[2] == 'i');
        reveal_strlit("zip"); assert(e != "zip"@) by { assert("zip"@[0] == 'z'); }
        reveal_strlit("rar"); assert(e != "rar"@) by { assert("rar"@[0] == 'r'); }
        reveal_strlit("7z"); assert(e != "7z"@) by { assert("7z"@.len() == 2); }
        reveal_strlit("tar"); assert(e != "tar"@) by { assert("tar"@[0] == 't'); }
        reveal_strlit("gz"); assert(e != "gz"@) by { assert("gz"@.len() == 2); }
        reveal_strlit("bz2"); assert(e != "bz2"@) by { assert("bz2"@[0] == 'b'); }
        reveal_strlit("xz"); assert(e != "xz"@) by { assert("xz"@.len() == 2); }
        reveal_strlit("iso"); assert(e != "iso"@) by { assert("iso"@[0] == 'i'); }
        reveal_strlit("dmg"); assert(e != "dmg"@) by { assert("dmg"@[0] == 'd'); }
        reveal_strlit("pkg"); assert(e != "pkg"@) by { assert("pkg"@[0] == 'p'); }
        reveal_strlit("tgz"); assert(e != "tgz"@) by { assert("tgz"@[0] == 't'); }
        reveal_strlit("exe"); assert(e != "exe"@) by { assert("exe"@[0] == 'e'); }
        reveal_strlit("msi"); assert(e != "msi"@) by { assert("msi"@[0] == 'm'); }
        reveal_strlit("apk"); assert(e != "apk"@) by { assert("apk"@[1] == 'p'); }
        reveal_strlit("deb"); assert(e != "deb"@) by { assert("deb"@[0] == 'd'); }
        reveal_strlit("rpm"); assert(e != "rpm"@) by { assert("rpm"@[0] == 'r'); }
        reveal_strlit("appimage"); assert(e != "appimage"@) by { assert("appimage"@.len() == 8); }
        reveal_strlit("bat"); assert(e != "bat"@) by { assert("bat"@[0] == 'b'); }
        reveal_strlit("cmd"); assert(e != "cmd"@) by { assert("cmd"@[0] == 'c'); }
        reveal_strlit("ps1"); assert(e != "ps1"@) by { assert("ps1"@[0] == 'p'); }
    }
    if e == "wmv"@ {
        reveal_strlit("wmv");
        assert(e.len() == 3 && e[0] == 'w' && e[1] == 'm' && e[2] == 'v');
        reveal_strlit("zip"); assert(e != "zip"@) by { assert("zip"@[0] == 'z'); }
        reveal_strlit("rar"); assert(e != "rar"@) by { assert("rar"@[0] == 'r'); }
        reveal_strlit("7z"); assert(e != "7z"@) by { assert("7z"@.len() == 2); }
        reveal_strlit("tar"); assert(e != "tar"@) by { assert("tar"@[0] == 't'); }
        reveal_strlit("gz"); assert(e != "gz"@) by { assert("gz"@.len() == 2); }
        reveal_strlit("bz2"); assert(e != "bz2"@) by { assert("bz2"@[0] == 'b'); }
        reveal_strlit("xz"); assert(e != "xz"@) by { assert("xz"@.len() == 2); }
        reveal_strlit("iso"); assert(e != "iso"@) by { assert("iso"@[0] == 'i'); }
        reveal_strlit("dmg"); assert(e != "dmg"@) by { assert("dmg"@[0] == 'd'); }
        reveal_strlit("pkg"); assert(e != "pkg"@) by { assert("pkg"@[0] == 'p'); }
        reveal_strlit("tgz"); assert(e != "tgz"@) by { assert("tgz"@[0] == 't'); }
        reveal_strlit("exe"); assert(e != "exe"@) by { assert("exe"@[0] == 'e'); }
        reveal_strlit("msi"); assert(e != "msi"@) by { assert("msi"@[0] == 'm'); }
        reveal_strlit("apk"); assert(e != "apk"@) by { assert("apk"@[0] == 'a'); }
        reveal_strlit("deb"); assert(e != "deb"@) by { assert("deb"@[0] == 'd'); }
        reveal_strlit("rpm"); assert(e != "rpm"@) by { assert("rpm"@[0] == 'r'); }
        reveal_strlit("appimage"); assert(e != "appimage"@) by { assert("appimage"@.len() == 8); }
        reveal_strlit("bat"); assert(e != "bat"@) by { assert("bat"@[0] == 'b'); }
        reveal_strlit("cmd"); assert(e != "cmd"@) by { assert("cmd"@[0] == 'c'); }
        reveal_strlit("ps1"); assert(e != "ps1"@) by { assert("ps1"@[0] == 'p'); }
    }
    if e == "flv"@ {
        reveal_strlit("flv");
        assert(e.len() == 3 && e[0] == 'f' && e[1] == 'l' && e[2] == 'v');
        reveal_strlit("zip"); assert(e != "zip"@) by { assert("zip"@[0] == 'z'); }
        reveal_strlit("rar"); assert(e != "rar"@) by { assert("rar"@[0] == 'r'); }
        reveal_strlit("7z"); assert(e != "7z"@) by { assert("7z"@.len() == 2); }
        reveal_strlit("tar"); assert(e != "tar"@) by { assert("tar"@[0] == 't'); }
        reveal_strlit("gz"); assert(e != "gz"@) by { assert("gz"@.len() == 2); }
        reveal_strlit("bz2"); assert(e != "bz2"@) by { assert("bz2"@[0] == 'b'); }
        reveal_strlit("xz"); assert(e != "xz"@) by { assert("xz"@.len() == 2); }
        reveal_strlit("iso"); assert(e != "iso"@) by { assert("iso"@[0] == 'i'); }
        reveal_strlit("dmg"); assert(e != "dmg"@) by { assert("dmg"@[0] == 'd'); }
        reveal_strlit("pkg"); assert(e != "pkg"@) by { assert("pkg"@[0] == 'p'); }
        reveal_strlit("tgz"); assert(e != "tgz"@) by { assert("tgz"@[0] == 't'); }
        reveal_strlit("exe"); assert(e != "exe"@) by { assert("exe"@[0] == 'e'); }
        reveal_strlit("msi"); assert(e != "msi"@) by { assert("msi"@[0] == 'm'); }
        reveal_strlit("apk"); assert(e != "apk"@) by { assert("apk"@[0] == 'a'); }
        reveal_strlit("deb"); assert(e != "deb"@) by { assert("deb"@[0] == 'd'); }
        reveal_strlit("rpm"); assert(e != "rpm"@) by { assert("rpm"@[0] == 'r'); }
        reveal_strlit("appimage"); assert(e != "appimage"@) by { assert("appimage"@.len() == 8); }
        reveal_strlit("bat"); assert(e != "bat"@) by { assert("bat"@[0] == 'b'); }
        reveal_strlit("cmd"); assert(e != "cmd"@) by { assert("cmd"@[0] == 'c'); }
        reveal_strlit("ps1"); assert(e != "ps1"@) by { assert("ps1"@[0] == 'p'); }
    }
    if e == "webm"@ {
        reveal_strlit("webm");
        assert(e.len() == 4 && e[0] == 'w' && e[1] == 'e' && e[2] == 'b' && e[3] == 'm');
        reveal_strlit("zip"); assert(e != "zip"@) by { assert("zip"@.len() == 3); }
        reveal_strlit("rar"); assert(e != "rar"@) by { assert("rar"@.len() == 3); }
        reveal_strlit("7z"); assert(e != "7z"@) by { assert("7z"@.len() == 2); }
        reveal_strlit("tar"); assert(e != "tar"@) by { assert("tar"@.len() == 3); }
        reveal_strlit("gz"); assert(e != "gz"@) by { assert("gz"@.len() == 2); }
        reveal_strlit("bz2"); assert(e != "bz2"@) by { assert("bz2"@.len() == 3); }
        reveal_strlit("xz"); assert(e != "xz"@) by { assert("xz"@.len() == 2); }
        reveal_strlit("iso"); assert(e != "iso"@) by { assert("iso"@.len() == 3); }
        reveal_strlit("dmg"); assert(e != "dmg"@) by { assert("dmg"@.len() == 3); }
        reveal_strlit("pkg"); assert(e != "pkg"@) by { assert("pkg"@.len() == 3); }
        reveal_strlit("tgz"); assert(e != "tgz"@) by { assert("tgz"@.len() == 3); }
        reveal_strlit("exe"); assert(e != "exe"@) by { assert("exe"@.len() == 3); }
        reveal_strlit("msi"); assert(e != "msi"@) by { assert("msi"@.len() == 3); }
        reveal_strlit("apk"); assert(e != "apk"@) by { assert("apk"@.len() == 3); }
        reveal_strlit("deb"); assert(e != "deb"@) by { assert("deb"@.len() == 3); }
        reveal_strlit("rpm"); assert(e != "rpm"@) by { assert("rpm"@.len() == 3); }
        reveal_strlit("appimage"); assert(e != "appimage"@) by { assert("appimage"@.len() == 8); }
        reveal_strlit("bat"); assert(e != "bat"@) by { assert("bat"@.len() == 3); }
        reveal_strlit("cmd"); assert(e != "cmd"@) by { assert("cmd"@.len() == 3); }
        reveal_strlit("ps1"); assert(e != "ps1"@) by { assert("ps1"@.len() == 3); }
    }
    if e == "m4v"@ {
        reveal_strlit("m4v");
        assert(e.len() == 3 && e[0] == 'm' && e[1] == '4' && e[2] == 'v');
        reveal_strlit("zip"); assert(e != "zip"@) by { assert("zip"@[0] == 'z'); }
        reveal_strlit("rar"); assert(e != "rar"@) by { assert("rar"@[0] == 'r'); }
        reveal_strlit("7z"); assert(e != "7z"@) by { assert("7z"@.len() == 2); }
        reveal_strlit("tar"); assert(e != "tar"@) by { assert("tar"@[0] == 't'); }
        reveal_strlit("gz"); assert(e != "gz"@) by { assert("gz"@.len() == 2); }
        reveal_strlit("bz2"); assert(e != "bz2"@) by { assert("bz2"@[0] == 'b'); }
        reveal_strlit("xz"); assert(e != "xz"@) by { assert("xz"@.len() == 2); }
        reveal_strlit("iso"); assert(e != "iso"@) by { assert("iso"@[0] == 'i'); }
        reveal_strlit("dmg"); assert(e != "dmg"@) by { assert("dmg"@[0] == 'd'); }
        reveal_strlit("pkg"); assert(e != "pkg"@) by { assert("pkg"@[0] == 'p'); }
        reveal_strlit("tgz"); assert(e != "tgz"@) by { assert("tgz"@[0] == 't'); }
        reveal_strlit("exe"); assert(e != "exe"@) by { assert("exe"@[0] == 'e'); }
        reveal_strlit("msi"); assert(e != "msi"@) by { assert("msi"@[1] == 's'); }
        reveal_strlit("apk"); assert(e != "apk"@) by { assert("apk"@[0] == 'a'); }
        reveal_strlit("deb"); assert(e != "deb"@) by { assert("deb"@[0] == 'd'); }
        reveal_strlit("rpm"); assert(e != "rpm"@) by { assert("rpm"@[0] == 'r'); }
        reveal_strlit("appimage"); assert(e != "appimage"@) by { assert("appimage"@.len() == 8); }
        reveal_strlit("bat"); assert(e != "bat"@) by { assert("bat"@[0] == 'b'); }
        reveal_strlit("cmd"); assert(e != "cmd"@) by { assert("cmd"@[0] == 'c'); }
        reveal_strlit("ps1"); assert(e != "ps1"@) by { assert("ps1"@[0] == 'p'); }
    }
    if e == "m2ts"@ {
        reveal_strlit("m2ts");
        assert(e.len() == 4 && e[0] == 'm' && e[1] == '2' && e[2] == 't' && e[3] == 's');
        reveal_strlit("zip"); assert(e != "zip"@) by { assert("zip"@.len() == 3); }
        reveal_strlit("rar"); assert(e != "rar"@) by { assert("rar"@.len() == 3); }
        reveal_strlit("7z"); assert(e != "7z"@) by { assert("7z"@.len() == 2); }
        reveal_strlit("tar"); assert(e != "tar"@) by { assert("tar"@.len() == 3); }
        reveal_strlit("gz"); assert(e != "gz"@) by { assert("gz"@.len() == 2); }
        reveal_strlit("bz2"); assert(e != "bz2"@) by { assert("bz2"@.len() == 3); }
        reveal_strlit("xz"); assert(e != "xz"@) by { assert("xz"@.len() == 2); }
        reveal_strlit("iso"); assert(e != "iso"@) by { assert("iso"@.len() == 3); }
        reveal_strlit("dmg"); assert(e != "dmg"@) by { assert("dmg"@.len() == 3); }
        reveal_strlit("pkg"); assert(e != "pkg"@) by { assert("pkg"@.len() == 3); }
        reveal_strlit("tgz"); assert(e != "tgz"@) by { assert("tgz"@.len() == 3); }
        reveal_strlit("exe"); assert(e != "exe"@) by { assert("exe"@.len() == 3); }
        reveal_strlit("msi"); assert(e != "msi"@) by { assert("msi"@.len() == 3); }
        reveal_strlit("apk"); assert(e != "apk"@) by { assert("apk"@.len() == 3); }
        reveal_strlit("deb"); assert(e != "deb"@) by { assert("deb"@.len() == 3); }
        reveal_strlit("rpm"); assert(e != "rpm"@) by { assert("rpm"@.len() == 3); }
        reveal_strlit("appimage"); assert(e != "appimage"@) by { assert("appimage"@.len() == 8); }
        reveal_strlit("bat"); assert(e != "bat"@) by { assert("bat"@.len() == 3); }
        reveal_strlit("cmd"); assert(e != "cmd"@) by { assert("cmd"@.len() == 3); }
        reveal_strlit("ps1"); assert(e != "ps1"@) by { assert("ps1"@.len() == 3); }
    }
    if e == "mp3"@ {
        reveal_strlit("mp3");
        assert(e.len() == 3 && e[0] == 'm' && e[1] == 'p' && e[2] == '3');
        reveal_strlit("zip"); assert(e != "zip"@) by { assert("zip"@[0] == 'z'); }
        reveal_strlit("rar"); assert(e != "rar"@) by { assert("rar"@[0] == 'r'); }
        reveal_strlit("7z"); assert(e != "7z"@) by { assert("7z"@.len() == 2); }
        reveal_strlit("tar"); assert(e != "tar"@) by { assert("tar"@[0] == 't'); }
        reveal_strlit("gz"); assert(e != "gz"@) by { assert("gz"@.len() == 2); }
        reveal_strlit("bz2"); assert(e != "bz2"@) by { assert("bz2"@[0] == 'b'); }
        reveal_strlit("xz"); assert(e != "xz"@) by { assert("xz"@.len() == 2); }
        reveal_strlit("iso"); assert(e != "iso"@) by { assert("iso"@[0] == 'i'); }
        reveal_strlit("dmg"); assert(e != "dmg"@) by { assert("dmg"@[0] == 'd'); }
        reveal_strlit("pkg"); assert(e != "pkg"@) by { assert("pkg"@[0] == 'p'); }
        reveal_strlit("tgz"); assert(e != "tgz"@) by { assert("tgz"@[0] == 't'); }
        reveal_strlit("exe"); assert(e != "exe"@) by { assert("exe"@[0] == 'e'); }
        reveal_strlit("msi"); assert(e != "msi"@) by { assert("msi"@[1] == 's'); }
        reveal_strlit("apk"); assert(e != "apk"@) by { assert("apk"@[0] == 'a'); }
        reveal_strlit("deb"); assert(e != "deb"@) by { assert("deb"@[0] == 'd'); }
        reveal_strlit("rpm"); assert(e != "rpm"@) by { assert("rpm"@[0] == 'r'); }
        reveal_strlit("appimage"); assert(e != "appimage"@) by { assert("appimage"@.len() == 8); }
        reveal_strlit("bat"); assert(e != "bat"@) by { assert("bat"@[0] == 'b'); }
        reveal_strlit("cmd"); assert(e != "cmd"@) by { assert("cmd"@[0] == 'c'); }
        reveal_strlit("ps1"); assert(e != "ps1"@) by { assert("ps1"@[0] == 'p'); }
        reveal_strlit("mp4"); assert(e != "mp4"@) by { assert("mp4"@[2] == '4'); }
        reveal_strlit("mkv"); assert(e != "mkv"@) by { assert("mkv"@[1] == 'k'); }
        reveal_strlit("mov"); assert(e != "mov"@) by { assert("mov"@[1] == 'o'); }
        reveal_strlit("avi"); assert(e != "avi"@) by { assert("avi"@[0] == 'a'); }
        reveal_strlit("wmv"); assert(e != "wmv"@) by { assert("wmv"@[0] == 'w'); }
        reveal_strlit("flv"); assert(e != "flv"@) by { assert("flv"@[0] == 'f'); }
        reveal_strlit("webm"); assert(e != "webm"@) by { assert("webm"@.len() == 4); }
        reveal_strlit("m4v"); assert(e != "m4v"@) by { assert("m4v"@[1] == '4'); }
        reveal_strlit("m2ts"); assert(e != "m2ts"@) by { assert("m2ts"@.len() == 4); }
    }
    if e == "wav"@ {
        reveal_strlit("wav");
        assert(e.len() == 3 && e[0] == 'w' && e[1] == 'a' && e[2] == 'v');
        reveal_strlit("zip"); assert(e != "zip"@) by { assert("zip"@[0] == 'z'); }
        reveal_strlit("rar"); assert(e != "rar"@) by { assert("rar"@[0] == 'r'); }
        reveal_strlit("7z"); assert(e != "7z"@) by { assert("7z"@.len() == 2); }
        reveal_strlit("tar"); assert(e != "tar"@) by { assert("tar"@[0] == 't'); }
        reveal_strlit("gz"); assert(e != "gz"@) by { assert("gz"@.len() == 2); }
        reveal_strlit("bz2"); assert(e != "bz2"@) by { assert("bz2"@[0] == 'b'); }
        reveal_strlit("xz"); assert(e != "xz"@) by { assert("xz"@.len() == 2); }
        reveal_strlit("iso"); assert(e != "iso"@) by { assert("iso"@[0] == 'i'); }
        reveal_strlit("dmg"); assert(e != "dmg"@) by { assert("dmg"@[0] == 'd'); }
        reveal_strlit("pkg"); assert(e != "pkg"@) by { assert("pkg"@[0] == 'p'); }
        reveal_strlit("tgz"); assert(e != "tgz"@) by { assert("tgz"@[0] == 't'); }
        reveal_strlit("exe"); assert(e != "exe"@) by { assert("exe"@[0] == 'e'); }
        reveal_strlit("msi"); assert(e != "msi"@) by { assert("msi"@[0] == 'm'); }
        reveal_strlit("apk"); assert(e != "apk"@) by { assert("apk"@[0] == 'a'); }
        reveal_strlit("deb"); assert(e != "deb"@) by { assert("deb"@[0] == 'd'); }
        reveal_strlit("rpm"); assert(e != "rpm"@) by { assert("rpm"@[0] == 'r'); }
        reveal_strlit("appimage"); assert(e != "appimage"@) by { assert("appimage"@.len() == 8); }
        reveal_strlit("bat"); assert(e != "bat"@) by { assert("bat"@[0] == 'b'); }
        reveal_strlit("cmd"); assert(e != "cmd"@) by { assert("cmd"@[0] == 'c'); }
        reveal_strlit("ps1"); assert(e != "ps1"@) by { assert("ps1"@[0] == 'p'); }
        reveal_strlit("mp4"); assert(e != "mp4"@) by { assert("mp4"@[0] == 'm'); }
        reveal_strlit("mkv"); assert(e != "mkv"@) by { assert("mkv"@[0] == 'm'); }
        reveal_strlit("mov"); assert(e != "mov"@) by { assert("mov"@[0] == 'm'); }
        reveal_strlit("avi"); assert(e != "avi"@) by { assert("avi"@[0] == 'a'); }
        reveal_strlit("wmv"); assert(e != "wmv"@) by { assert("wmv"@[1] == 'm'); }
        reveal_strlit("flv"); assert(e != "flv"@) by { assert("flv"@[0] == 'f'); }
        reveal_strlit("webm"); assert(e != "webm"@) by { assert("webm"@.len() == 4); }
        reveal_strlit("m4v"); assert(e != "m4v"@) by { assert("m4v"@[0] == 'm'); }
        reveal_strlit("m2ts"); assert(e != "m2ts"@) by { assert("m2ts"@.len() == 4); }
    }
    if e == "flac"@ {
        reveal_strlit("flac");
        assert(e.len() == 4 && e[0] == 'f' && e[1] == 'l' && e[2] == 'a' && e[3] == 'c');
        reveal_strlit("zip"); assert(e != "zip"@) by { assert("zip"@.len() == 3); }
        reveal_strlit("rar"); assert(e != "rar"@) by { assert("rar"@.len() == 3); }
        reveal_strlit("7z"); assert(e != "7z"@) by { assert("7z"@.len() == 2); }
        reveal_strlit("tar"); assert(e != "tar"@) by { assert("tar"@.len() == 3); }
        reveal_strlit("gz"); assert(e != "gz"@) by { assert("gz"@.len() == 2); }
        reveal_strlit("bz2"); assert(e != "bz2"@) by { assert("bz2"@.len() == 3); }
        reveal_strlit("xz"); assert(e != "xz"@) by { assert("xz"@.len() == 2); }
        reveal_strlit("iso"); assert(e != "iso"@) by { assert("iso"@.len() == 3); }
        reveal_strlit("dmg"); assert(e != "dmg"@) by { assert("dmg"@.len() == 3); }
        reveal_strlit("pkg"); assert(e != "pkg"@) by { assert("pkg"@.len() == 3); }
        reveal_strlit("tgz"); assert(e != "tgz"@) by { assert("tgz"@.len() == 3); }
        reveal_strlit("exe"); assert(e != "exe"@) by { assert("exe"@.len() == 3); }
        reveal_strlit("msi"); assert(e != "msi"@) by { assert("msi"@.len() == 3); }
        reveal_strlit("apk"); assert(e != "apk"@) by { assert("apk"@.len() == 3); }
        reveal_strlit("deb"); assert(e != "deb"@) by { assert("deb"@.len() == 3); }
        reveal_strlit("rpm"); assert(e != "rpm"@) by { assert("rpm"@.len() == 3); }
        reveal_strlit("appimage"); assert(e != "appimage"@) by { assert("appimage"@.len() == 8); }
        reveal_strlit("bat"); assert(e != "bat"@) by { assert("bat"@.len() == 3); }
        reveal_strlit("cmd"); assert(e != "cmd"@) by { assert("cmd"@.len() == 3); }
        reveal_strlit("ps1"); assert(e != "ps1"@) by { assert("ps1"@.len() == 3); }
        reveal_strlit("mp4"); assert(e != "mp4"@) by { assert("mp4"@.len() == 3); }
        reveal_strlit("mkv"); assert(e != "mkv"@) by { assert("mkv"@.len() == 3); }
        reveal_strlit("mov"); assert(e != "mov"@) by { assert("mov"@.len() == 3); }
        reveal_strlit("avi"); assert(e != "avi"@) by { assert("avi"@.len() == 3); }
        reveal_strlit("wmv"); assert(e != "wmv"@) by { assert("wmv"@.len() == 3); }
        reveal_strlit("flv"); assert(e != "flv"@) by { assert("flv"@.len() == 3); }
        reveal_strlit("webm"); assert(e != "webm"@) by { assert("webm"@[0] == 'w'); }
        reveal_strlit("m4v"); assert(e != "m4v"@) by { assert("m4v"@.len() == 3); }
        reveal_strlit("m2ts"); assert(e != "m2ts"@) by { assert("m2ts"@[0] == 'm'); }
    }
    if e == "aac"@ {
        reveal_strlit("aac");
        assert(e.len() == 3 && e[0] == 'a' && e[1] == 'a' && e[2] == 'c');
        reveal_strlit("zip"); assert(e != "zip"@) by { assert("zip"@[0] == 'z'); }
        reveal_strlit("rar"); assert(e != "rar"@) by { assert("rar"@[0] == 'r'); }
        reveal_strlit("7z"); assert(e != "7z"@) by { assert("7z"@.len() == 2); }
        reveal_strlit("tar"); assert(e != "tar"@) by { assert("tar"@[0] == 't'); }
        reveal_strlit("gz"); assert(e != "gz"@) by { assert("gz"@.len() == 2); }
        reveal_strlit("bz2"); assert(e != "bz2"@) by { assert("bz2"@[0] == 'b'); }
        reveal_strlit("xz"); assert(e != "xz"@) by { assert("xz"@.len() == 2); }
        reveal_strlit("iso"); assert(e != "iso"@) by { assert("iso"@[0] == 'i'); }
        reveal_strlit("dmg"); assert(e != "dmg"@) by { assert("dmg"@[0] == 'd'); }
        reveal_strlit("pkg"); assert(e != "pkg"@) by { assert("pkg"@[0] == 'p'); }
        reveal_strlit("tgz"); assert(e != "tgz"@) by { assert("tgz"@[0] == 't'); }
        reveal_strlit("exe"); assert(e != "exe"@) by { assert("exe"@[0] == 'e'); }
        reveal_strlit("msi"); assert(e != "msi"@) by { assert("msi"@[0] == 'm'); }
        reveal_strlit("apk"); assert(e != "apk"@) by { assert("apk"@[1] == 'p'); }
        reveal_strlit("deb"); assert(e != "deb"@) by { assert("deb"@[0] == 'd'); }
        reveal_strlit("rpm"); assert(e != "rpm"@) by { assert("rpm"@[0] == 'r'); }
        reveal_strlit("appimage"); assert(e != "appimage"@) by { assert("appimage"@.len() == 8); }
        reveal_strlit("bat"); assert(e != "bat"@) by { assert("bat"@[0] == 'b'); }
        reveal_strlit("cmd"); assert(e != "cmd"@) by { assert("cmd"@[0] == 'c'); }
        reveal_strlit("ps1"); assert(e != "ps1"@) by { assert("ps1"@[0] == 'p'); }
        reveal_strlit("mp4"); assert(e != "mp4"@) by { assert("mp4"@[0] == 'm'); }
        reveal_strlit("mkv"); assert(e != "mkv"@) by { assert("mkv"@[0] == 'm'); }
        reveal_strlit("mov"); assert(e != "mov"@) by { assert("mov"@[0] == 'm'); }
        reveal_strlit("avi"); assert(e != "avi"@) by { assert("avi"@[1] == 'v'); }
        reveal_strlit("wmv"); assert(e != "wmv"@) by { assert("wmv"@[0] == 'w'); }
        reveal_strlit("flv"); assert(e != "flv"@) by { assert("flv"@[0] == 'f'); }
        reveal_strlit("webm"); assert(e != "webm"@) by { assert("webm"@.len() == 4); }
        reveal_strlit("m4v"); assert(e != "m4v"@) by { assert("m4v"@[0] == 'm'); }
        reveal_strlit("m2ts"); assert(e != "m2ts"@) by { assert("m2ts"@.len() == 4); }
    }
    if e == "ogg"@ {
        reveal_strlit("ogg");
        assert(e.len() == 3 && e[0] == 'o' && e[1] == 'g' && e[2] == 'g');
        reveal_strlit("zip"); assert(e != "zip"@) by { assert("zip"@[0] == 'z'); }
        reveal_strlit("rar"); assert(e != "rar"@) by { assert("rar"@[0] == 'r'); }
        reveal_strlit("7z"); assert(e != "7z"@) by { assert("7z"@.len() == 2); }
        reveal_strlit("tar"); assert(e != "tar"@) by { assert("tar"@[0] == 't'); }
        reveal_strlit("gz"); assert(e != "gz"@) by { assert("gz"@.len() == 2); }
        reveal_strlit("bz2"); assert(e != "bz2"@) by { assert("bz2"@[0] == 'b'); }
        reveal_strlit("xz"); assert(e != "xz"@) by { assert("xz"@.len() == 2); }
        reveal_strlit("iso"); assert(e != "iso"@) by { assert("iso"@[0] == 'i'); }
        reveal_strlit("dmg"); assert(e != "dmg"@) by { assert("dmg"@[0] == 'd'); }
        reveal_strlit("pkg"); assert(e != "pkg"@) by { assert("pkg"@[0] == 'p'); }
        reveal_strlit("tgz"); assert(e != "tgz"@) by { assert("tgz"@[0] == 't'); }
        reveal_strlit("exe"); assert(e != "exe"@) by { assert("exe"@[0] == 'e'); }
        reveal_strlit("msi"); assert(e != "msi"@) by { assert("msi"@[0] == 'm'); }
        reveal_strlit("apk"); assert(e != "apk"@) by { assert("apk"@[0] == 'a'); }
        reveal_strlit("deb"); assert(e != "deb"@) by { assert("deb"@[0] == 'd'); }
        reveal_strlit("rpm"); assert(e != "rpm"@) by { assert("rpm"@[0] == 'r'); }
        reveal_strlit("appimage"); assert(e != "appimage"@) by { assert("appimage"@.len() == 8); }
        reveal_strlit("bat"); assert(e != "bat"@) by { assert("bat"@[0] == 'b'); }
        reveal_strlit("cmd"); assert(e != "cmd"@) by { assert("cmd"@[0] == 'c'); }
        reveal_strlit("ps1"); assert(e != "ps1"@) by { assert("ps1"@[0] == 'p'); }
        reveal_strlit("mp4"); assert(e != "mp4"@) by { assert("mp4"@[0] == 'm'); }
        reveal_strlit("mkv"); assert(e != "mkv"@) by { assert("mkv"@[0] == 'm'); }
        reveal_strlit("mov"); assert(e != "mov"@) by { assert("mov"@[0] == 'm'); }
        reveal_strlit("avi"); assert(e != "avi"@) by { assert("avi"@[0] == 'a'); }
        reveal_strlit("wmv"); assert(e != "wmv"@) by { assert("wmv"@[0] == 'w'); }
        reveal_strlit("flv"); assert(e != "flv"@) by { assert("flv"@[0] == 'f'); }
        reveal_strlit("webm"); assert(e != "webm"@) by { assert("webm"@.len() == 4); }
        reveal_strlit("m4v"); assert(e != "m4v"@) by { assert("m4v"@[0] == 'm'); }
        reveal_strlit("m2ts"); assert(e != "m2ts"@) by { assert("m2ts"@.len() == 4); }
    }
    if e == "m4a"@ {
        reveal_strlit("m4a");
        assert(e.len() == 3 && e[0] == 'm' && e[1] == '4' && e[2] == 'a');
        reveal_strlit("zip"); assert(e != "zip"@) by { assert("zip"@[0] == 'z'); }
        reveal_strlit("rar"); assert(e != "rar"@) by { assert("rar"@[0] == 'r'); }
        reveal_strlit("7z"); assert(e != "7z"@) by { assert("7z"@.len() == 2); }
        reveal_strlit("tar"); assert(e != "tar"@) by { assert("tar"@[0] == 't'); }
        reveal_strlit("gz"); assert(e != "gz"@) by { assert("gz"@.len() == 2); }
        reveal_strlit("bz2"); assert(e != "bz2"@) by { assert("bz2"@[0] == 'b'); }
        reveal_strlit("xz"); assert(e != "xz"@) by { assert("xz"@.len() == 2); }
        reveal_strlit("iso"); assert(e != "iso"@) by { assert("iso"@[0] == 'i'); }
        reveal_strlit("dmg"); assert(e != "dmg"@) by { assert("dmg"@[0] == 'd'); }
        reveal_strlit("pkg"); assert(e != "pkg"@) by { assert("pkg"@[0] == 'p'); }
        reveal_strlit("tgz"); assert(e != "tgz"@) by { assert("tgz"@[0] == 't'); }
        reveal_strlit("exe"); assert(e != "exe"@) by { assert("exe"@[0] == 'e'); }
        reveal_strlit("msi"); assert(e != "msi"@) by { assert("msi"@[1] == 's'); }
        reveal_strlit("apk"); assert(e != "apk"@) by { assert("apk"@[0] == 'a'); }
        reveal_strlit("deb"); assert(e != "deb"@) by { assert("deb"@[0] == 'd'); }
        reveal_strlit("rpm"); assert(e != "rpm"@) by { assert("rpm"@[0] == 'r'); }
        reveal_strlit("appimage"); assert(e != "appimage"@) by { assert("appimage"@.len() == 8); }
        reveal_strlit("bat"); assert(e != "bat"@) by { assert("bat"@[0] == 'b'); }
        reveal_strlit("cmd"); assert(e != "cmd"@) by { assert("cmd"@[0] == 'c'); }
        reveal_strlit("ps1"); assert(e != "ps1"@) by { assert("ps1"@[0] == 'p'); }
        reveal_strlit("mp4"); assert(e != "mp4"@) by { assert("mp4"@[1] == 'p'); }
        reveal_strlit("mkv"); assert(e != "mkv"@) by { assert("mkv"@[1] == 'k'); }
        reveal_strlit("mov"); assert(e != "mov"@) by { assert("mov"@[1] == 'o'); }
        reveal_strlit("avi"); assert(e != "avi"@) by { assert("avi"@[0] == 'a'); }
        reveal_strlit("wmv"); assert(e != "wmv"@) by { assert("wmv"@[0] == 'w'); }
        reveal_strlit("flv"); assert(e != "flv"@) by { assert("flv"@[0] == 'f'); }
        reveal_strlit("webm"); assert(e != "webm"@) by { assert("webm"@.len() == 4); }
        reveal_strlit("m4v"); assert(e != "m4v"@) by { assert("m4v"@[2] == 'v'); }
        reveal_strlit("m2ts"); assert(e != "m2ts"@) by { assert("m2ts"@.len() == 4); }
    }
    if e == "wma"@ {
        reveal_strlit("wma");
        assert(e.len() == 3 && e[0] == 'w' && e[1] == 'm' && e[2] == 'a');
        reveal_strlit("zip"); assert(e != "zip"@) by { assert("zip"@[0] == 'z'); }
        reveal_strlit("rar"); assert(e != "rar"@) by { assert("rar"@[0] == 'r'); }
        reveal_strlit("7z"); assert(e != "7z"@) by { assert("7z"@.len() == 2); }
        reveal_strlit("tar"); assert(e != "tar"@) by { assert("tar"@[0] == 't'); }
        reveal_strlit("gz"); assert(e != "gz"@) by { assert("gz"@.len() == 2); }
        reveal_strlit("bz2"); assert(e != "bz2"@) by { assert("bz2"@[0] == 'b'); }
        reveal_strlit("xz"); assert(e != "xz"@) by { assert("xz"@.len() == 2); }
        reveal_strlit("iso"); assert(e != "iso"@) by { assert("iso"@[0] == 'i'); }
        reveal_strlit("dmg"); assert(e != "dmg"@) by { assert("dmg"@[0] == 'd'); }
        reveal_strlit("pkg"); assert(e != "pkg"@) by { assert("pkg"@[0] == 'p'); }
        reveal_strlit("tgz"); assert(e != "tgz"@) by { assert("tgz"@[0] == 't'); }
        reveal_strlit("exe"); assert(e != "exe"@) by { assert("exe"@[0] == 'e'); }
        reveal_strlit("msi"); assert(e != "msi"@) by { assert("msi"@[0] == 'm'); }
        reveal_strlit("apk"); assert(e != "apk"@) by { assert("apk"@[0] == 'a'); }
        reveal_strlit("deb"); assert(e != "deb"@) by { assert("deb"@[0] == 'd'); }
        reveal_strlit("rpm"); assert(e != "rpm"@) by { assert("rpm"@[0] == 'r'); }
        reveal_strlit("appimage"); assert(e != "appimage"@) by { assert("appimage"@.len() == 8); }
        reveal_strlit("bat"); assert(e != "bat"@) by { assert("bat"@[0] == 'b'); }
        reveal_strlit("cmd"); assert(e != "cmd"@) by { assert("cmd"@[0] == 'c'); }
        reveal_strlit("ps1"); assert(e != "ps1"@) by { assert("ps1"@[0] == 'p'); }
        reveal_strlit("mp4"); assert(e != "mp4"@) by { assert("mp4"@[0] == 'm'); }
        reveal_strlit("mkv"); assert(e != "mkv"@) by { assert("mkv"@[0] == 'm'); }
        reveal_strlit("mov"); assert(e != "mov"@) by { assert("mov"@[0] == 'm'); }
        reveal_strlit("avi"); assert(e != "avi"@) by { assert("avi"@[0] == 'a'); }
        reveal_strlit("wmv"); assert(e != "wmv"@) by { assert("wmv"@[2] == 'v'); }
        reveal_strlit("flv"); assert(e != "flv"@) by { assert("flv"@[0] == 'f'); }
        reveal_strlit("webm"); assert(e != "webm"@) by { assert("webm"@.len() == 4); }
        reveal_strlit("m4v"); assert(e != "m4v"@) by { assert("m4v"@[0] == 'm'); }
        reveal_strlit("m2ts"); assert(e != "m2ts"@) by { assert("m2ts"@.len() == 4); }
    }
    if e == "opus"@ {
        reveal_strlit("opus");
        assert(e.len() == 4 && e[0] == 'o' && e[1] == 'p' && e[2] == 'u' && e[3] == 's');
        reveal_strlit("zip"); assert(e != "zip"@) by { assert("zip"@.len() == 3); }
        reveal_strlit("rar"); assert(e != "rar"@) by { assert("rar"@.len() == 3); }
        reveal_strlit("7z"); assert(e != "7z"@) by { assert("7z"@.len() == 2); }
        reveal_strlit("tar"); assert(e != "tar"@) by { assert("tar"@.len() == 3); }
        reveal_strlit("gz"); assert(e != "gz"@) by { assert("gz"@.len() == 2); }
        reveal_strlit("bz2"); assert(e != "bz2"@) by { assert("bz2"@.len() == 3); }
        reveal_strlit("xz"); assert(e != "xz"@) by { assert("xz"@.len() == 2); }
        reveal_strlit("iso"); assert(e != "iso"@) by { assert("iso"@.len() == 3); }
        reveal_strlit("dmg"); assert(e != "dmg"@) by { assert("dmg"@.len() == 3); }
        reveal_strlit("pkg"); assert(e != "pkg"@) by { assert("pkg"@.len() == 3); }
        reveal_strlit("tgz"); assert(e != "tgz"@) by { assert("tgz"@.len() == 3); }
        reveal_strlit("exe"); assert(e != "exe"@) by { assert("exe"@.len() == 3); }
        reveal_strlit("msi"); assert(e != "msi"@) by { assert("msi"@.len() == 3); }
        reveal_strlit("apk"); assert(e != "apk"@) by { assert("apk"@.len() == 3); }
        reveal_strlit("deb"); assert(e != "deb"@) by { assert("deb"@.len() == 3); }
        reveal_strlit("rpm"); assert(e != "rpm"@) by { assert("rpm"@.len() == 3); }
        reveal_strlit("appimage"); assert(e != "appimage"@) by { assert("appimage"@.len() == 8); }
        reveal_strlit("bat"); assert(e != "bat"@) by { assert("bat"@.len() == 3); }
        reveal_strlit("cmd"); assert(e != "cmd"@) by { assert("cmd"@.len() == 3); }
        reveal_strlit("ps1"); assert(e != "ps1"@) by { assert("ps1"@.len() == 3); }
        reveal_strlit("mp4"); assert(e != "mp4"@) by { assert("mp4"@.len() == 3); }
        reveal_strlit("mkv"); assert(e != "mkv"@) by { assert("mkv"@.len() == 3); }
        reveal_strlit("mov"); assert(e != "mov"@) by { assert("mov"@.len() == 3); }
        reveal_strlit("avi"); assert(e != "avi"@) by { assert("avi"@.len() == 3); }
        reveal_strlit("wmv"); assert(e != "wmv"@) by { assert("wmv"@.len() == 3); }
        reveal_strlit("flv"); assert(e != "flv"@) by { assert("flv"@.len() == 3); }
        reveal_strlit("webm"); assert(e != "webm"@) by { assert("webm"@[0] == 'w'); }
        reveal_strlit("m4v"); assert(e != "m4v"@) by { assert("m4v"@.len() == 3); }
        reveal_strlit("m2ts"); assert(e != "m2ts"@) by { assert("m2ts"@[0] == 'm'); }
    }
    if e == "pdf"@ {
        reveal_strlit("pdf");
        assert(e.len() == 3 && e[0] == 'p' && e[1] == 'd' && e[2] == 'f');
        reveal_strlit("zip"); assert(e != "zip"@) by { assert("zip"@[0] == 'z'); }
        reveal_strlit("rar"); assert(e != "rar"@) by { assert("rar"@[0] == 'r'); }
        reveal_strlit("7z"); assert(e != "7z"@) by { assert("7z"@.len() == 2); }
        reveal_strlit("tar"); assert(e != "tar"@) by { assert("tar"@[0] == 't'); }
        reveal_strlit("gz"); assert(e != "gz"@) by { assert("gz"@.len() == 2); }
        reveal_strlit("bz2"); assert(e != "bz2"@) by { assert("bz2"@[0] == 'b'); }
        reveal_strlit("xz"); assert(e != "xz"@) by { assert("xz"@.len() == 2); }
        reveal_strlit("iso"); assert(e != "iso"@) by { assert("iso"@[0] == 'i'); }
        reveal_strlit("dmg"); assert(e != "dmg"@) by { assert("dmg"@[0] == 'd'); }
        reveal_strlit("pkg"); assert(e != "pkg"@) by { assert("pkg"@[1] == 'k'); }
        reveal_strlit("tgz"); assert(e != "tgz"@) by { assert("tgz"@[0] == 't'); }
        reveal_strlit("exe"); assert(e != "exe"@) by { assert("exe"@[0] == 'e'); }
        reveal_strlit("msi"); assert(e != "msi"@) by { assert("msi"@[0] == 'm'); }
        reveal_strlit("apk"); assert(e != "apk"@) by { assert("apk"@[0] == 'a'); }
        reveal_strlit("deb"); assert(e != "deb"@) by { assert("deb"@[0] == 'd'); }
        reveal_strlit("rpm"); assert(e != "rpm"@) by { assert("rpm"@[0] == 'r'); }
        reveal_strlit("appimage"); assert(e != "appimage"@) by { assert("appimage"@.len() == 8); }
        reveal_strlit("bat"); assert(e != "bat"@) by { assert("bat"@[0] == 'b'); }
        reveal_strlit("cmd"); assert(e != "cmd"@) by { assert("cmd"@[0] == 'c'); }
        reveal_strlit("ps1"); assert(e != "ps1"@) by { assert("ps1"@[1] == 's'); }
        reveal_strlit("mp4"); assert(e != "mp4"@) by { assert("mp4"@[0] == 'm'); }
        reveal_strlit("mkv"); assert(e != "mkv"@) by { assert("mkv"@[0] == 'm'); }
        reveal_strlit("mov"); assert(e != "mov"@) by { assert("mov"@[0] == 'm'); }
        reveal_strlit("avi"); assert(e != "avi"@) by { assert("avi"@[0] == 'a'); }
        reveal_strlit("wmv"); assert(e != "wmv"@) by { assert("wmv"@[0] == 'w'); }
        reveal_strlit("flv"); assert(e != "flv"@) by { assert("flv"@[0] == 'f'); }
        reveal_strlit("webm"); assert(e != "webm"@) by { assert("webm"@.len() == 4); }
        reveal_strlit("m4v"); assert(e != "m4v"@) by { assert("m4v"@[0] == 'm'); }
        reveal_strlit("m2ts"); assert(e != "m2ts"@) by { assert("m2ts"@.len() == 4); }
        reveal_strlit("mp3"); assert(e != "mp3"@) by { assert("mp3"@[0] == 'm'); }
        reveal_strlit("wav"); assert(e != "wav"@) by { assert("wav"@[0] == 'w'); }
        reveal_strlit("flac"); assert(e != "flac"@) by { assert("flac"@.len() == 4); }
        reveal_strlit("aac"); assert(e != "aac"@) by { assert("aac"@[0] == 'a'); }
        reveal_strlit("ogg"); assert(e != "ogg"@) by { assert("ogg"@[0] == 'o'); }
        reveal_strlit("m4a"); assert(e != "m4a"@) by { assert("m4a"@[0] == 'm'); }
        reveal_strlit("wma"); assert(e != "wma"@) by { assert("wma"@[0] == 'w'); }
        reveal_strlit("opus"); assert(e != "opus"@) by { assert("opus"@.len() == 4); }
    }
    if e == "doc"@ {
        reveal_strlit("doc");
        assert(e.len() == 3 && e[0] == 'd' && e[1] == 'o' && e[2] == 'c');
        reveal_strlit("zip"); assert(e != "zip"@) by { assert("zip"@[0] == 'z'); }
        reveal_strlit("rar"); assert(e != "rar"@) by { assert("rar"@[0] == 'r'); }
        reveal_strlit("7z"); assert(e != "7z"@) by { assert("7z"@.len() == 2); }
        reveal_strlit("tar"); assert(e != "tar"@) by { assert("tar"@[0] == 't'); }
        reveal_strlit("gz"); assert(e != "gz"@) by { assert("gz"@.len() == 2); }
        reveal_strlit("bz2"); assert(e != "bz2"@) by { assert("bz2"@[0] == 'b'); }
        reveal_strlit("xz"); assert(e != "xz"@) by { assert("xz"@.len() == 2); }
        reveal_strlit("iso"); assert(e != "iso"@) by { assert("iso"@[0] == 'i'); }
        reveal_strlit("dmg"); assert(e != "dmg"@) by { assert("dmg"@[1] == 'm'); }
        reveal_strlit("pkg"); assert(e != "pkg"@) by { assert("pkg"@[0] == 'p'); }
        reveal_strlit("tgz"); assert(e != "tgz"@) by { assert("tgz"@[0] == 't'); }
        reveal_strlit("exe"); assert(e != "exe"@) by { assert("exe"@[0] == 'e'); }
        reveal_strlit("msi"); assert(e != "msi"@) by { assert("msi"@[0] == 'm'); }
        reveal_strlit("apk"); assert(e != "apk"@) by { assert("apk"@[0] == 'a'); }
        reveal_strlit("deb"); assert(e != "deb"@) by { assert("deb"@[1] == 'e'); }
        reveal_strlit("rpm"); assert(e != "rpm"@) by { assert("rpm"@[0] == 'r'); }
        reveal_strlit("appimage"); assert(e != "appimage"@) by { assert("appimage"@.len() == 8); }
        reveal_strlit("bat"); assert(e != "bat"@) by { assert("bat"@[0] == 'b'); }
        reveal_strlit("cmd"); assert(e != "cmd"@) by { assert("cmd"@[0] == 'c'); }
        reveal_strlit("ps1"); assert(e != "ps1"@) by { assert("ps1"@[0] == 'p'); }
        reveal_strlit("mp4"); assert(e != "mp4"@) by { assert("mp4"@[0] == 'm'); }
        reveal_strlit("mkv"); assert(e != "mkv"@) by { assert("mkv"@[0] == 'm'); }
        reveal_strlit("mov"); assert(e != "mov"@) by { assert("mov"@[0] == 'm'); }
        reveal_strlit("avi"); assert(e != "avi"@) by { assert("avi"@[0] == 'a'); }
        reveal_strlit("wmv"); assert(e != "wmv"@) by { assert("wmv"@[0] == 'w'); }
        reveal_strlit("flv"); assert(e != "flv"@) by { assert("flv"@[0] == 'f'); }
        reveal_strlit("webm"); assert(e != "webm"@) by { assert("webm"@.len() == 4); }
        reveal_strlit("m4v"); assert(e != "m4v"@) by { assert("m4v"@[0] == 'm'); }
        reveal_strlit("m2ts"); assert(e != "m2ts"@) by { assert("m2ts"@.len() == 4); }
        reveal_strlit("mp3"); assert(e != "mp3"@) by { assert("mp3"@[0] == 'm'); }
        reveal_strlit("wav"); assert(e != "wav"@) by { assert("wav"@[0] == 'w'); }
        reveal_strlit("flac"); assert(e != "flac"@) by { assert("flac"@.len() == 4); }
        reveal_strlit("aac"); assert(e != "aac"@) by { assert("aac"@[0] == 'a'); }
        reveal_strlit("ogg"); assert(e != "ogg"@) by { assert("ogg"@[0] == 'o'); }
        reveal_strlit("m4a"); assert(e != "m4a"@) by { assert("m4a"@[0] == 'm'); }
        reveal_strlit("wma"); assert(e != "wma"@) by { assert("wma"@[0] == 'w'); }
        reveal_strlit("opus"); assert(e != "opus"@) by { assert("opus"@.len() == 4); }
    }
    if e == "docx"@ {
        reveal_strlit("docx");
        assert(e.len() == 4 && e[0] == 'd' && e[1] == 'o' && e[2] == 'c' && e[3] == 'x');
        reveal_strlit("zip"); assert(e != "zip"@) by { assert("zip"@.len() == 3); }
        reveal_strlit("rar"); assert(e != "rar"@) by { assert("rar"@.len() == 3); }
        reveal_strlit("7z"); assert(e != "7z"@) by { assert("7z"@.len() == 2); }
        reveal_strlit("tar"); assert(e != "tar"@) by { assert("tar"@.len() == 3); }
        reveal_strlit("gz"); assert(e != "gz"@) by { assert("gz"@.len() == 2); }
        reveal_strlit("bz2"); assert(e != "bz2"@) by { assert("bz2"@.len() == 3); }
        reveal_strlit("xz"); assert(e != "xz"@) by { assert("xz"@.len() == 2); }
        reveal_strlit("iso"); assert(e != "iso"@) by { assert("iso"@.len() == 3); }
        reveal_strlit("dmg"); assert(e != "dmg"@) by { assert("dmg"@.len() == 3); }
        reveal_strlit("pkg"); assert(e != "pkg"@) by { assert("pkg"@.len() == 3); }
        reveal_strlit("tgz"); assert(e != "tgz"@) by { assert("tgz"@.len() == 3); }
        reveal_strlit("exe"); assert(e != "exe"@) by { assert("exe"@.len() == 3); }
        reveal_strlit("msi"); assert(e != "msi"@) by { assert("msi"@.len() == 3); }
        reveal_strlit("apk"); assert(e != "apk"@) by { assert("apk"@.len() == 3); }
        reveal_strlit("deb"); assert(e != "deb"@) by { assert("deb"@.len() == 3); }
        reveal_strlit("rpm"); assert(e != "rpm"@) by { assert("rpm"@.len() == 3); }
        reveal_strlit("appimage"); assert(e != "appimage"@) by { assert("appimage"@.len() == 8); }
        reveal_strlit("bat"); assert(e != "bat"@) by { assert("bat"@.len() == 3); }
        reveal_strlit("cmd"); assert(e != "cmd"@) by { assert("cmd"@.len() == 3); }
        reveal_strlit("ps1"); assert(e != "ps1"@) by { assert("ps1"@.len() == 3); }
        reveal_strlit("mp4"); assert(e != "mp4"@) by { assert("mp4"@.len() == 3); }
        reveal_strlit("mkv"); assert(e != "mkv"@) by { assert("mkv"@.len() == 3); }
        reveal_strlit("mov"); assert(e != "mov"@) by { assert("mov"@.len() == 3); }
        reveal_strlit("avi"); assert(e != "avi"@) by { assert("avi"@.len() == 3); }
        reveal_strlit("wmv"); assert(e != "wmv"@) by { assert("wmv"@.len() == 3); }
        reveal_strlit("flv"); assert(e != "flv"@) by { assert("flv"@.len() == 3); }
        reveal_strlit("webm"); assert(e != "webm"@) by { assert("webm"@[0] == 'w'); }
        reveal_strlit("m4v"); assert(e != "m4v"@) by { assert("m4v"@.len() == 3); }
        reveal_strlit("m2ts"); assert(e != "m2ts"@) by { assert("m2ts"@[0] == 'm'); }
        reveal_strlit("mp3"); assert(e != "mp3"@) by { assert("mp3"@.len() == 3); }
        reveal_strlit("wav"); assert(e != "wav"@) by { assert("wav"@.len() == 3); }
        reveal_strlit("flac"); assert(e != "flac"@) by { assert("flac"@[0] == 'f'); }
        reveal_strlit("aac"); assert(e != "aac"@) by { assert("aac"@.len() == 3); }
        reveal_strlit("ogg"); assert(e != "ogg"@) by { assert("ogg"@.len() == 3); }
        reveal_strlit("m4a"); assert(e != "m4a"@) by { assert("m4a"@.len() == 3); }
        reveal_strlit("wma"); assert(e != "wma"@) by { assert("wma"@.len() == 3); }
        reveal_strlit("opus"); assert(e != "opus"@) by { assert("opus"@[0] == 'o'); }
    }
    if e == "xls"@ {
        reveal_strlit("xls");
        assert(e.len() == 3 && e[0] == 'x' && e[1] == 'l' && e[2] == 's');
        reveal_strlit("zip"); assert(e != "zip"@) by { assert("zip"@[0] == 'z'); }
        reveal_strlit("rar"); assert(e != "rar"@) by { assert("rar"@[0] == 'r'); }
        reveal_strlit("7z"); assert(e != "7z"@) by { assert("7z"@.len() == 2); }
        reveal_strlit("tar"); assert(e != "tar"@) by { assert("tar"@[0] == 't'); }
        reveal_strlit("gz"); assert(e != "gz"@) by { assert("gz"@.len() == 2); }
        reveal_strlit("bz2"); assert(e != "bz2"@) by { assert("bz2"@[0] == 'b'); }
        reveal_strlit("xz"); assert(e != "xz"@) by { assert("xz"@.len() == 2); }
        reveal_strlit("iso"); assert(e != "iso"@) by { assert("iso"@[0] == 'i'); }
        reveal_strlit("dmg"); assert(e != "dmg"@) by { assert("dmg"@[0] == 'd'); }
        reveal_strlit("pkg"); assert(e != "pkg"@) by { assert("pkg"@[0] == 'p'); }
        reveal_strlit("tgz"); assert(e != "tgz"@) by { assert("tgz"@[0] == 't'); }
        reveal_strlit("exe"); assert(e != "exe"@) by { assert("exe"@[0] == 'e'); }
        reveal_strlit("msi"); assert(e != "msi"@) by { assert("msi"@[0] == 'm'); }
        reveal_strlit("apk"); assert(e != "apk"@) by { assert("apk"@[0] == 'a'); }
        reveal_strlit("deb"); assert(e != "deb"@) by { assert("deb"@[0] == 'd'); }
        reveal_strlit("rpm"); assert(e != "rpm"@) by { assert("rpm"@[0] == 'r'); }
        reveal_strlit("appimage"); assert(e != "appimage"@) by { assert("appimage"@.len() == 8); }
        reveal_strlit("bat"); assert(e != "bat"@) by { assert("bat"@[0] == 'b'); }
        reveal_strlit("cmd"); assert(e != "cmd"@) by { assert("cmd"@[0] == 'c'); }
        reveal_strlit("ps1"); assert(e != "ps1"@) by { assert("ps1"@[0] == 'p'); }
        reveal_strlit("mp4"); assert(e != "mp4"@) by { assert("mp4"@[0] == 'm'); }
        reveal_strlit("mkv"); assert(e != "mkv"@) by { assert("mkv"@[0] == 'm'); }
        reveal_strlit("mov"); assert(e != "mov"@) by { assert("mov"@[0] == 'm'); }
        reveal_strlit("avi"); assert(e != "avi"@) by { assert("avi"@[0] == 'a'); }
        reveal_strlit("wmv"); assert(e != "wmv"@) by { assert("wmv"@[0] == 'w'); }
        reveal_strlit("flv"); assert(e != "flv"@) by { assert("flv"@[0] == 'f'); }
        reveal_strlit("webm"); assert(e != "webm"@) by { assert("webm"@.len() == 4); }
        reveal_strlit("m4v"); assert(e != "m4v"@) by { assert("m4v"@[0] == 'm'); }
        reveal_strlit("m2ts"); assert(e != "m2ts"@) by { assert("m2ts"@.len() == 4); }
        reveal_strlit("mp3"); assert(e != "mp3"@) by { assert("mp3"@[0] == 'm'); }
        reveal_strlit("wav"); assert(e != "wav"@) by { assert("wav"@[0] == 'w'); }
        reveal_strlit("flac"); assert(e != "flac"@) by { assert("flac"@.len() == 4); }
        reveal_strlit("aac"); assert(e != "aac"@) by { assert("aac"@[0] == 'a'); }
        reveal_strlit("ogg"); assert(e != "ogg"@) by { assert("ogg"@[0] == 'o'); }
        reveal_strlit("m4a"); assert(e != "m4a"@) by { assert("m4a"@[0] == 'm'); }
        reveal_strlit("wma"); assert(e != "wma"@) by { assert("wma"@[0] == 'w'); }
        reveal_strlit("opus"); assert(e != "opus"@) by { assert("opus"@.len() == 4); }
    }
    if e == "xlsx"@ {
        reveal_strlit("xlsx");
        assert(e.len() == 4 && e[0] == 'x' && e[1] == 'l' && e[2] == 's' && e[3] == 'x');
        reveal_strlit("zip"); assert(e != "zip"@) by { assert("zip"@.len() == 3); }
        reveal_strlit("rar"); assert(e != "rar"@) by { assert("rar"@.len() == 3); }
        reveal_strlit("7z"); assert(e != "7z"@) by { assert("7z"@.len() == 2); }
        reveal_strlit("tar"); assert(e != "tar"@) by { assert("tar"@.len() == 3); }
        reveal_strlit("gz"); assert(e != "gz"@) by { assert("gz"@.len() == 2); }
        reveal_strlit("bz2"); assert(e != "bz2"@) by { assert("bz2"@.len() == 3); }
        reveal_strlit("xz"); assert(e != "xz"@) by { assert("xz"@.len() == 2); }
        reveal_strlit("iso"); assert(e != "iso"@) by { assert("iso"@.len() == 3); }
        reveal_strlit("dmg"); assert(e != "dmg"@) by { assert("dmg"@.len() == 3); }
        reveal_strlit("pkg"); assert(e != "pkg"@) by { assert("pkg"@.len() == 3); }
        reveal_strlit("tgz"); assert(e != "tgz"@) by { assert("tgz"@.len() == 3); }
        reveal_strlit("exe"); assert(e != "exe"@) by { assert("exe"@.len() == 3); }
        reveal_strlit("msi"); assert(e != "msi"@) by { assert("msi"@.len() == 3); }
        reveal_strlit("apk"); assert(e != "apk"@) by { assert("apk"@.len() == 3); }
        reveal_strlit("deb"); assert(e != "deb"@) by { assert("deb"@.len() == 3); }
        reveal_strlit("rpm"); assert(e != "rpm"@) by { assert("rpm"@.len() == 3); }
        reveal_strlit("appimage"); assert(e != "appimage"@) by { assert("appimage"@.len() == 8); }
        reveal_strlit("bat"); assert(e != "bat"@) by { assert("bat"@.len() == 3); }
        reveal_strlit("cmd"); assert(e != "cmd"@) by { assert("cmd"@.len() == 3); }
        reveal_strlit("ps1"); assert(e != "ps1"@) by { assert("ps1"@.len() == 3); }
        reveal_strlit("mp4"); assert(e != "mp4"@) by { assert("mp4"@.len() == 3); }
        reveal_strlit("mkv"); assert(e != "mkv"@) by { assert("mkv"@.len() == 3); }
        reveal_strlit("mov"); assert(e != "mov"@) by { assert("mov"@.len() == 3); }
        reveal_strlit("avi"); assert(e != "avi"@) by { assert("avi"@.len() == 3); }
        reveal_strlit("wmv"); assert(e != "wmv"@) by { assert("wmv"@.len() == 3); }
        reveal_strlit("flv"); assert(e != "flv"@) by { assert("flv"@.len() == 3); }
        reveal_strlit("webm"); assert(e != "webm"@) by { assert("webm"@[0] == 'w'); }
        reveal_strlit("m4v"); assert(e != "m4v"@) by { assert("m4v"@.len() == 3); }
        reveal_strlit("m2ts"); assert(e != "m2ts"@) by { assert("m2ts"@[0] == 'm'); }
        reveal_strlit("mp3"); assert(e != "mp3"@) by { assert("mp3"@.len() == 3); }
        reveal_strlit("wav"); assert(e != "wav"@) by { assert("wav"@.len() == 3); }
        reveal_strlit("flac"); assert(e != "flac"@) by { assert("flac"@[0] == 'f'); }
        reveal_strlit("aac"); assert(e != "aac"@) by { assert("aac"@.len() == 3); }
        reveal_strlit("ogg"); assert(e != "ogg"@) by { assert("ogg"@.len() == 3); }
        reveal_strlit("m4a"); assert(e != "m4a"@) by { assert("m4a"@.len() == 3); }
        reveal_strlit("wma"); assert(e != "wma"@) by { assert("wma"@.len() == 3); }
        reveal_strlit("opus"); assert(e != "opus"@) by { assert("opus"@[0] == 'o'); }
    }
    if e == "ppt"@ {
        reveal_strlit("ppt");
        assert(e.len() == 3 && e[0] == 'p' && e[1] == 'p' && e[2] == 't');
        reveal_strlit("zip"); assert(e != "zip"@) by { assert("zip"@[0] == 'z'); }
        reveal_strlit("rar"); assert(e != "rar"@) by { assert("rar"@[0] == 'r'); }
        reveal_strlit("7z"); assert(e != "7z"@) by { assert("7z"@.len() == 2); }
        reveal_strlit("tar"); assert(e != "tar"@) by { assert("tar"@[0] == 't'); }
        reveal_strlit("gz"); assert(e != "gz"@) by { assert("gz"@.len() == 2); }
        reveal_strlit("bz2"); assert(e != "bz2"@) by { assert("bz2"@[0] == 'b'); }
        reveal_strlit("xz"); assert(e != "xz"@) by { assert("xz"@.len() == 2); }
        reveal_strlit("iso"); assert(e != "iso"@) by { assert("iso"@[0] == 'i'); }
        reveal_strlit("dmg"); assert(e != "dmg"@) by { assert("dmg"@[0] == 'd'); }
        reveal_strlit("pkg"); assert(e != "pkg"@) by { assert("pkg"@[1] == 'k'); }
        reveal_strlit("tgz"); assert(e != "tgz"@) by { assert("tgz"@[0] == 't'); }
        reveal_strlit("exe"); assert(e != "exe"@) by { assert("exe"@[0] == 'e'); }
        reveal_strlit("msi"); assert(e != "msi"@) by { assert("msi"@[0] == 'm'); }
        reveal_strlit("apk"); assert(e != "apk"@) by { assert("apk"@[0] == 'a'); }
        reveal_strlit("deb"); assert(e != "deb"@) by { assert("deb"@[0] == 'd'); }
        reveal_strlit("rpm"); assert(e != "rpm"@) by { assert("rpm"@[0] == 'r'); }
        reveal_strlit("appimage"); assert(e != "appimage"@) by { assert("appimage"@.len() == 8); }
        reveal_strlit("bat"); assert(e != "bat"@) by { assert("bat"@[0] == 'b'); }
        reveal_strlit("cmd"); assert(e != "cmd"@) by { assert("cmd"@[0] == 'c'); }
        reveal_strlit("ps1"); assert(e != "ps1"@) by { assert("ps1"@[1] == 's'); }
        reveal_strlit("mp4"); assert(e != "mp4"@) by { assert("mp4"@[0] == 'm'); }
        reveal_strlit("mkv"); assert(e != "mkv"@) by { assert("mkv"@[0] == 'm'); }
        reveal_strlit("mov"); assert(e != "mov"@) by { assert("mov"@[0] == 'm'); }
        reveal_strlit("avi"); assert(e != "avi"@) by { assert("avi"@[0] == 'a'); }
        reveal_strlit("wmv"); assert(e != "wmv"@) by { assert("wmv"@[0] == 'w'); }
        reveal_strlit("flv"); assert(e != "flv"@) by { assert("flv"@[0] == 'f'); }
        reveal_strlit("webm"); assert(e != "webm"@) by { assert("webm"@.len() == 4); }
        reveal_strlit("m4v"); assert(e != "m4v"@) by { assert("m4v"@[0] == 'm'); }
        reveal_strlit("m2ts"); assert(e != "m2ts"@) by { assert("m2ts"@.len() == 4); }
        reveal_strlit("mp3"); assert(e != "mp3"@) by { assert("mp3"@[0] == 'm'); }
        reveal_strlit("wav"); assert(e != "wav"@) by { assert("wav"@[0] == 'w'); }
        reveal_strlit("flac"); assert(e != "flac"@) by { assert("flac"@.len() == 4); }
        reveal_strlit("aac"); assert(e != "aac"@) by { assert("aac"@[0] == 'a'); }
        reveal_strlit("ogg"); assert(e != "ogg"@) by { assert("ogg"@[0] == 'o'); }
        reveal_strlit("m4a"); assert(e != "m4a"@) by { assert("m4a"@[0] == 'm'); }
        reveal_strlit("wma"); assert(e != "wma"@) by { assert("wma"@[0] == 'w'); }
        reveal_strlit("opus"); assert(e != "opus"@) by { assert("opus"@.len() == 4); }
    }
    if e == "pptx"@ {
        reveal_strlit("pptx");
        assert(e.len() == 4 && e[0] == 'p' && e[1] == 'p' && e[2] == 't' && e[3] == 'x');
        reveal_strlit("zip"); assert(e != "zip"@) by { assert("zip"@.len() == 3); }
        reveal_strlit("rar"); assert(e != "rar"@) by { assert("rar"@.len() == 3); }
        reveal_strlit("7z"); assert(e != "7z"@) by { assert("7z"@.len() == 2); }
        reveal_strlit("tar"); assert(e != "tar"@) by { assert("tar"@.len() == 3); }
        reveal_strlit("gz"); assert(e != "gz"@) by { assert("gz"@.len() == 2); }
        reveal_strlit("bz2"); assert(e != "bz2"@) by { assert("bz2"@.len() == 3); }
        reveal_strlit("xz"); assert(e != "xz"@) by { assert("xz"@.len() == 2); }
        reveal_strlit("iso"); assert(e != "iso"@) by { assert("iso"@.len() == 3); }
        reveal_strlit("dmg"); assert(e != "dmg"@) by { assert("dmg"@.len() == 3); }
        reveal_strlit("pkg"); assert(e != "pkg"@) by { assert("pkg"@.len() == 3); }
        reveal_strlit("tgz"); assert(e != "tgz"@) by { assert("tgz"@.len() == 3); }
        reveal_strlit("exe"); assert(e != "exe"@) by { assert("exe"@.len() == 3); }
        reveal_strlit("msi"); assert(e != "msi"@) by { assert("msi"@.len() == 3); }
        reveal_strlit("apk"); assert(e != "apk"@) by { assert("apk"@.len() == 3); }
        reveal_strlit("deb"); assert(e != "deb"@) by { assert("deb"@.len() == 3); }
        reveal_strlit("rpm"); assert(e != "rpm"@) by { assert("rpm"@.len() == 3); }
        reveal_strlit("appimage"); assert(e != "appimage"@) by { assert("appimage"@.len() == 8); }
        reveal_strlit("bat"); assert(e != "bat"@) by { assert("bat"@.len() == 3); }
        reveal_strlit("cmd"); assert(e != "cmd"@) by { assert("cmd"@.len() == 3); }
        reveal_strlit("ps1"); assert(e != "ps1"@) by { assert("ps1"@.len() == 3); }
        reveal_strlit("mp4"); assert(e != "mp4"@) by { assert("mp4"@.len() == 3); }
        reveal_strlit("mkv"); assert(e != "mkv"@) by { assert("mkv"@.len() == 3); }
        reveal_strlit("mov"); assert(e != "mov"@) by { assert("mov"@.len() == 3); }
        reveal_strlit("avi"); assert(e != "avi"@) by { assert("avi"@.len() == 3); }
        reveal_strlit("wmv"); assert(e != "wmv"@) by { assert("wmv"@.len() == 3); }
        reveal_strlit("flv"); assert(e != "flv"@) by { assert("flv"@.len() == 3); }
        reveal_strlit("webm"); assert(e != "webm"@) by { assert("webm"@[0] == 'w'); }
        reveal_strlit("m4v"); assert(e != "m4v"@) by { assert("m4v"@.len() == 3); }
        reveal_strlit("m2ts"); assert(e != "m2ts"@) by { assert("m2ts"@[0] == 'm'); }
        reveal_strlit("mp3"); assert(e != "mp3"@) by { assert("mp3"@.len() == 3); }
        reveal_strlit("wav"); assert(e != "wav"@) by { assert("wav"@.len() == 3); }
        reveal_strlit("flac"); assert(e != "flac"@) by { assert("flac"@[0] == 'f'); }
        reveal_strlit("aac"); assert(e != "aac"@) by { assert("aac"@.len() == 3); }
        reveal_strlit("ogg"); assert(e != "ogg"@) by { assert("ogg"@.len() == 3); }
        reveal_strlit("m4a"); assert(e != "m4a"@) by { assert("m4a"@.len() == 3); }
        reveal_strlit("wma"); assert(e != "wma"@) by { assert("wma"@.len() == 3); }
        reveal_strlit("opus"); assert(e != "opus"@) by { assert("opus"@[0] == 'o'); }
    }
    if e == "txt"@ {
        reveal_strlit("txt");
        assert(e.len() == 3 && e[0] == 't' && e[1] == 'x' && e[2] == 't');
        reveal_strlit("zip"); assert(e != "zip"@) by { assert("zip"@[0] == 'z'); }
        reveal_strlit("rar"); assert(e != "rar"@) by { assert("rar"@[0] == 'r'); }
        reveal_strlit("7z"); assert(e != "7z"@) by { assert("7z"@.len() == 2); }
        reveal_strlit("tar"); assert(e != "tar"@) by { assert("tar"@[1] == 'a'); }
        reveal_strlit("gz"); assert(e != "gz"@) by { assert("gz"@.len() == 2); }
        reveal_strlit("bz2"); assert(e != "bz2"@) by { assert("bz2"@[0] == 'b'); }
        reveal_strlit("xz"); assert(e != "xz"@) by { assert("xz"@.len() == 2); }
        reveal_strlit("iso"); assert(e != "iso"@) by { assert("iso"@[0] == 'i'); }
        reveal_strlit("dmg"); assert(e != "dmg"@) by { assert("dmg"@[0] == 'd'); }
        reveal_strlit("pkg"); assert(e != "pkg"@) by { assert("pkg"@[0] == 'p'); }
        reveal_strlit("tgz"); assert(e != "tgz"@) by { assert("tgz"@[1] == 'g'); }
        reveal_strlit("exe"); assert(e != "exe"@) by { assert("exe"@[0] == 'e'); }
        reveal_strlit("msi"); assert(e != "msi"@) by { assert("msi"@[0] == 'm'); }
        reveal_strlit("apk"); assert(e != "apk"@) by { assert("apk"@[0] == 'a'); }
        reveal_strlit("deb"); assert(e != "deb"@) by { assert("deb"@[0] == 'd'); }
        reveal_strlit("rpm"); assert(e != "rpm"@) by { assert("rpm"@[0] == 'r'); }
        reveal_strlit("appimage"); assert(e != "appimage"@) by { assert("appimage"@.len() == 8); }
        reveal_strlit("bat"); assert(e != "bat"@) by { assert("bat"@[0] == 'b'); }
        reveal_strlit("cmd"); assert(e != "cmd"@) by { assert("cmd"@[0] == 'c'); }
        reveal_strlit("ps1"); assert(e != "ps1"@) by { assert("ps1"@[0] == 'p'); }
        reveal_strlit("mp4"); assert(e != "mp4"@) by { assert("mp4"@[0] == 'm'); }
        reveal_strlit("mkv"); assert(e != "mkv"@) by { assert("mkv"@[0] == 'm'); }
        reveal_strlit("mov"); assert(e != "mov"@) by { assert("mov"@[0] == 'm'); }
        reveal_strlit("avi"); assert(e != "avi"@) by { assert("avi"@[0] == 'a'); }
        reveal_strlit("wmv"); assert(e != "wmv"@) by { assert("wmv"@[0] == 'w'); }
        reveal_strlit("flv"); assert(e != "flv"@) by { assert("flv"@[0] == 'f'); }
        reveal_strlit("webm"); assert(e != "webm"@) by { assert("webm"@.len() == 4); }
        reveal_strlit("m4v"); assert(e != "m4v"@) by { assert("m4v"@[0] == 'm'); }
        reveal_strlit("m2ts"); assert(e != "m2ts"@) by { assert("m2ts"@.len() == 4); }
        reveal_strlit("mp3"); assert(e != "mp3"@) by { assert("mp3"@[0] == 'm'); }
        reveal_strlit("wav"); assert(e != "wav"@) by { assert("wav"@[0] == 'w'); }
        reveal_strlit("flac"); assert(e != "flac"@) by { assert("flac"@.len() == 4); }
        reveal_strlit("aac"); assert(e != "aac"@) by { assert("aac"@[0] == 'a'); }
        reveal_strlit("ogg"); assert(e != "ogg"@) by { assert("ogg"@[0] == 'o'); }
        reveal_strlit("m4a"); assert(e != "m4a"@) by { assert("m4a"@[0] == 'm'); }
        reveal_strlit("wma"); assert(e != "wma"@) by { assert("wma"@[0] == 'w'); }
        reveal_strlit("opus"); assert(e != "opus"@) by { assert("opus"@.len() == 4); }
    }
    if e == "epub"@ {
        reveal_strlit("epub");
        assert(e.len() == 4 && e[0] == 'e' && e[1] == 'p' && e[2] == 'u' && e[3] == 'b');
        reveal_strlit("zip"); assert(e != "zip"@) by { assert("zip"@.len() == 3); }
        reveal_strlit("rar"); assert(e != "rar"@) by { assert("rar"@.len() == 3); }
        reveal_strlit("7z"); assert(e != "7z"@) by { assert("7z"@.len() == 2); }
        reveal_strlit("tar"); assert(e != "tar"@) by { assert("tar"@.len() == 3); }
        reveal_strlit("gz"); assert(e != "gz"@) by { assert("gz"@.len() == 2); }
        reveal_strlit("bz2"); assert(e != "bz2"@) by { assert("bz2"@.len() == 3); }
        reveal_strlit("xz"); assert(e != "xz"@) by { assert("xz"@.len() == 2); }
        reveal_strlit("iso"); assert(e != "iso"@) by { assert("iso"@.len() == 3); }
        reveal_strlit("dmg"); assert(e != "dmg"@) by { assert("dmg"@.len() == 3); }
        reveal_strlit("pkg"); assert(e != "pkg"@) by { assert("pkg"@.len() == 3); }
        reveal_strlit("tgz"); assert(e != "tgz"@) by { assert("tgz"@.len() == 3); }
        reveal_strlit("exe"); assert(e != "exe"@) by { assert("exe"@.len() == 3); }
        reveal_strlit("msi"); assert(e != "msi"@) by { assert("msi"@.len() == 3); }
        reveal_strlit("apk"); assert(e != "apk"@) by { assert("apk"@.len() == 3); }
        reveal_strlit("deb"); assert(e != "deb"@) by { assert("deb"@.len() == 3); }
        reveal_strlit("rpm"); assert(e != "rpm"@) by { assert("rpm"@.len() == 3); }
        reveal_strlit("appimage"); assert(e != "appimage"@) by { assert("appimage"@.len() == 8); }
        reveal_strlit("bat"); assert(e != "bat"@) by { assert("bat"@.len() == 3); }
        reveal_strlit("cmd"); assert(e != "cmd"@) by { assert("cmd"@.len() == 3); }
        reveal_strlit("ps1"); assert(e != "ps1"@) by { assert("ps1"@.len() == 3); }
        reveal_strlit("mp4"); assert(e != "mp4"@) by { assert("mp4"@.len() == 3); }
        reveal_strlit("mkv"); assert(e != "mkv"@) by { assert("mkv"@.len() == 3); }
        reveal_strlit("mov"); assert(e != "mov"@) by { assert("mov"@.len() == 3); }
        reveal_strlit("avi"); assert(e != "avi"@) by { assert("avi"@.len() == 3); }
        reveal_strlit("wmv"); assert(e != "wmv"@) by { assert("wmv"@.len() == 3); }
        reveal_strlit("flv"); assert(e != "flv"@) by { assert("flv"@.len() == 3); }
        reveal_strlit("webm"); assert(e != "webm"@) by { assert("webm"@[0] == 'w'); }
        reveal_strlit("m4v"); assert(e != "m4v"@) by { assert("m4v"@.len() == 3); }
        reveal_strlit("m2ts"); assert(e != "m2ts"@) by { assert("m2ts"@[0] == 'm'); }
        reveal_strlit("mp3"); assert(e != "mp3"@) by { assert("mp3"@.len() == 3); }
        reveal_strlit("wav"); assert(e != "wav"@) by { assert("wav"@.len() == 3); }
        reveal_strlit("flac"); assert(e != "flac"@) by { assert("flac"@[0] == 'f'); }
        reveal_strlit("aac"); assert(e != "aac"@) by { assert("aac"@.len() == 3); }
        reveal_strlit("ogg"); assert(e != "ogg"@) by { assert("ogg"@.len() == 3); }
        reveal_strlit("m4a"); assert(e != "m4a"@) by { assert("m4a"@.len() == 3); }
        reveal_strlit("wma"); assert(e != "wma"@) by { assert("wma"@.len() == 3); }
        reveal_strlit("opus"); assert(e != "opus"@) by { assert("opus"@[0] == 'o'); }
    }
    if e == "md"@ {
        reveal_strlit("md");
        assert(e.len() == 2 && e[0] == 'm' && e[1] == 'd');
        reveal_strlit("zip"); assert(e != "zip"@) by { assert("zip"@.len() == 3); }
        reveal_strlit("rar"); assert(e != "rar"@) by { assert("rar"@.len() == 3); }
        reveal_strlit("7z"); assert(e != "7z"@) by { assert("7z"@[0] == '7'); }
        reveal_strlit("tar"); assert(e != "tar"@) by { assert("tar"@.len() == 3); }
        reveal_strlit("gz"); assert(e != "gz"@) by { assert("gz"@[0] == 'g'); }
        reveal_strlit("bz2"); assert(e != "bz2"@) by { assert("bz2"@.len() == 3); }
        reveal_strlit("xz"); assert(e != "xz"@) by { assert("xz"@[0] == 'x'); }
        reveal_strlit("iso"); assert(e != "iso"@) by { assert("iso"@.len() == 3); }
        reveal_strlit("dmg"); assert(e != "dmg"@) by { assert("dmg"@.len() == 3); }
        reveal_strlit("pkg"); assert(e != "pkg"@) by { assert("pkg"@.len() == 3); }
        reveal_strlit("tgz"); assert(e != "tgz"@) by { assert("tgz"@.len() == 3); }
        reveal_strlit("exe"); assert(e != "exe"@) by { assert("exe"@.len() == 3); }
        reveal_strlit("msi"); assert(e != "msi"@) by { assert("msi"@.len() == 3); }
        reveal_strlit("apk"); assert(e != "apk"@) by { assert("apk"@.len() == 3); }
        reveal_strlit("deb"); assert(e != "deb"@) by { assert("deb"@.len() == 3); }
        reveal_strlit("rpm"); assert(e != "rpm"@) by { assert("rpm"@.len() == 3); }
        reveal_strlit("appimage"); assert(e != "appimage"@) by { assert("appimage"@.len() == 8); }
        reveal_strlit("bat"); assert(e != "bat"@) by { assert("bat"@.len() == 3); }
        reveal_strlit("cmd"); assert(e != "cmd"@) by { assert("cmd"@.len() == 3); }
        reveal_strlit("ps1"); assert(e != "ps1"@) by { assert("ps1"@.len() == 3); }
        reveal_strlit("mp4"); assert(e != "mp4"@) by { assert("mp4"@.len() == 3); }
        reveal_strlit("mkv"); assert(e != "mkv"@) by { assert("mkv"@.len() == 3); }
        reveal_strlit("mov"); assert(e != "mov"@) by { assert("mov"@.len() == 3); }
        reveal_strlit("avi"); assert(e != "avi"@) by { assert("avi"@.len() == 3); }
        reveal_strlit("wmv"); assert(e != "wmv"@) by { assert("wmv"@.len() == 3); }
        reveal_strlit("flv"); assert(e != "flv"@) by { assert("flv"@.len() == 3); }
        reveal_strlit("webm"); assert(e != "webm"@) by { assert("webm"@.len() == 4); }
        reveal_strlit("m4v"); assert(e != "m4v"@) by { assert("m4v"@.len() == 3); }
        reveal_strlit("m2ts"); assert(e != "m2ts"@) by { assert("m2ts"@.len() == 4); }
        reveal_strlit("mp3"); assert(e != "mp3"@) by { assert("mp3"@.len() == 3); }
        reveal_strlit("wav"); assert(e != "wav"@) by { assert("wav"@.len() == 3); }
        reveal_strlit("flac"); assert(e != "flac"@) by { assert("flac"@.len() == 4); }
        reveal_strlit("aac"); assert(e != "aac"@) by { assert("aac"@.len() == 3); }
        reveal_strlit("ogg"); assert(e != "ogg"@) by { assert("ogg"@.len() == 3); }
        reveal_strlit("m4a"); assert(e != "m4a"@) by { assert("m4a"@.len() == 3); }
        reveal_strlit("wma"); assert(e != "wma"@) by { assert("wma"@.len() == 3); }
        reveal_strlit("opus"); assert(e != "opus"@) by { assert("opus"@.len() == 4); }
    }
    if e == "png"@ {
        reveal_strlit("png");
        assert(e.len() == 3 && e[0] == 'p' && e[1] == 'n' && e[2] == 'g');
        reveal_strlit("zip"); assert(e != "zip"@) by { assert("zip"@[0] == 'z'); }
        reveal_strlit("rar"); assert(e != "rar"@) by { assert("rar"@[0] == 'r'); }
        reveal_strlit("7z"); assert(e != "7z"@) by { assert("7z"@.len() == 2); }
        reveal_strlit("tar"); assert(e != "tar"@) by { assert("tar"@[0] == 't'); }
        reveal_strlit("gz"); assert(e != "gz"@) by { assert("gz"@.len() == 2); }
        reveal_strlit("bz2"); assert(e != "bz2"@) by { assert("bz2"@[0] == 'b'); }
        reveal_strlit("xz"); assert(e != "xz"@) by { assert("xz"@.len() == 2); }
        reveal_strlit("iso"); assert(e != "iso"@) by { assert("iso"@[0] == 'i'); }
        reveal_strlit("dmg"); assert(e != "dmg"@) by { assert("dmg"@[0] == 'd'); }
        reveal_strlit("pkg"); assert(e != "pkg"@) by { assert("pkg"@[1] == 'k'); }
        reveal_strlit("tgz"); assert(e != "tgz"@) by { assert("tgz"@[0] == 't'); }
        reveal_strlit("exe"); assert(e != "exe"@) by { assert("exe"@[0] == 'e'); }
        reveal_strlit("msi"); assert(e != "msi"@) by { assert("msi"@[0] == 'm'); }
        reveal_strlit("apk"); assert(e != "apk"@) by { assert("apk"@[0] == 'a'); }
        reveal_strlit("deb"); assert(e != "deb"@) by { assert("deb"@[0] == 'd'); }
        reveal_strlit("rpm"); assert(e != "rpm"@) by { assert("rpm"@[0] == 'r'); }
        reveal_strlit("appimage"); assert(e != "appimage"@) by { assert("appimage"@.len() == 8); }
        reveal_strlit("bat"); assert(e != "bat"@) by { assert("bat"@[0] == 'b'); }
        reveal_strlit("cmd"); assert(e != "cmd"@) by { assert("cmd"@[0] == 'c'); }
        reveal_strlit("ps1"); assert(e != "ps1"@) by { assert("ps1"@[1] == 's'); }
        reveal_strlit("mp4"); assert(e != "mp4"@) by { assert("mp4"@[0] == 'm'); }
        reveal_strlit("mkv"); assert(e != "mkv"@) by { assert("mkv"@[0] == 'm'); }
        reveal_strlit("mov"); assert(e != "mov"@) by { assert("mov"@[0] == 'm'); }
        reveal_strlit("avi"); assert(e != "avi"@) by { assert("avi"@[0] == 'a'); }
        reveal_strlit("wmv"); assert(e != "wmv"@) by { assert("wmv"@[0] == 'w'); }
        reveal_strlit("flv"); assert(e != "flv"@) by { assert("flv"@[0] == 'f'); }
        reveal_strlit("webm"); assert(e != "webm"@) by { assert("webm"@.len() == 4); }
        reveal_strlit("m4v"); assert(e != "m4v"@) by { assert("m4v"@[0] == 'm'); }
        reveal_strlit("m2ts"); assert(e != "m2ts"@) by { assert("m2ts"@.len() == 4); }
        reveal_strlit("mp3"); assert(e != "mp3"@) by { assert("mp3"@[0] == 'm'); }
        reveal_strlit("wav"); assert(e != "wav"@) by { assert("wav"@[0] == 'w'); }
        reveal_strlit("flac"); assert(e != "flac"@) by { assert("flac"@.len() == 4); }
        reveal_strlit("aac"); assert(e != "aac"@) by { assert("aac"@[0] == 'a'); }
        reveal_strlit("ogg"); assert(e != "ogg"@) by { assert("ogg"@[0] == 'o'); }
        reveal_strlit("m4a"); assert(e != "m4a"@) by { assert("m4a"@[0] == 'm'); }
        reveal_strlit("wma"); assert(e != "wma"@) by { assert("wma"@[0] == 'w'); }
        reveal_strlit("opus"); assert(e != "opus"@) by { assert("opus"@.len() == 4); }
        reveal_strlit("pdf"); assert(e != "pdf"@) by { assert("pdf"@[1] == 'd'); }
        reveal_strlit("doc"); assert(e != "doc"@) by { assert("doc"@[0] == 'd'); }
        reveal_strlit("docx"); assert(e != "docx"@) by { assert("docx"@.len() == 4); }
        reveal_strlit("xls"); assert(e != "xls"@) by { assert("xls"@[0] == 'x'); }
        reveal_strlit("xlsx"); assert(e != "xlsx"@) by { assert("xlsx"@.len() == 4); }
        reveal_strlit("ppt"); assert(e != "ppt"@) by { assert("ppt"@[1] == 'p'); }
        reveal_strlit("pptx"); assert(e != "pptx"@) by { assert("pptx"@.len() == 4); }
        reveal_strlit("txt"); assert(e != "txt"@) by { assert("txt"@[0] == 't'); }
        reveal_strlit("epub"); assert(e != "epub"@) by { assert("epub"@.len() == 4); }
        reveal_strlit("md"); assert(e != "md"@) by { assert("md"@.len() == 2); }
    }
    if e == "jpg"@ {
        reveal_strlit("jpg");
        assert(e.len() == 3 && e[0] == 'j' && e[1] == 'p' && e[2] == 'g');
        reveal_strlit("zip"); assert(e != "zip"@) by { assert("zip"@[0] == 'z'); }
        reveal_strlit("rar"); assert(e != "rar"@) by { assert("rar"@[0] == 'r'); }
        reveal_strlit("7z"); assert(e != "7z"@) by { assert("7z"@.len() == 2); }
        reveal_strlit("tar"); assert(e != "tar"@) by { assert("tar"@[0] == 't'); }
        reveal_strlit("gz"); assert(e != "gz"@) by { assert("gz"@.len() == 2); }
        reveal_strlit("bz2"); assert(e != "bz2"@) by { assert("bz2"@[0] == 'b'); }
        reveal_strlit("xz"); assert(e != "xz"@) by { assert("xz"@.len() == 2); }
        reveal_strlit("iso"); assert(e != "iso"@) by { assert("iso"@[0] == 'i'); }
        reveal_strlit("dmg"); assert(e != "dmg"@) by { assert("dmg"@[0] == 'd'); }
        reveal_strlit("pkg"); assert(e != "pkg"@) by { assert("pkg"@[0] == 'p'); }
        reveal_strlit("tgz"); assert(e != "tgz"@) by { assert("tgz"@[0] == 't'); }
        reveal_strlit("exe"); assert(e != "exe"@) by { assert("exe"@[0] == 'e'); }
        reveal_strlit("msi"); assert(e != "msi"@) by { assert("msi"@[0] == 'm'); }
        reveal_strlit("apk"); assert(e != "apk"@) by { assert("apk"@[0] == 'a'); }
        reveal_strlit("deb"); assert(e != "deb"@) by { assert("deb"@[0] == 'd'); }
        reveal_strlit("rpm"); assert(e != "rpm"@) by { assert("rpm"@[0] == 'r'); }
        reveal_strlit("appimage"); assert(e != "appimage"@) by { assert("appimage"@.len() == 8); }
        reveal_strlit("bat"); assert(e != "bat"@) by { assert("bat"@[0] == 'b'); }
        reveal_strlit("cmd"); assert(e != "cmd"@) by { assert("cmd"@[0] == 'c'); }
        reveal_strlit("ps1"); assert(e != "ps1"@) by { assert("ps1"@[0] == 'p'); }
        reveal_strlit("mp4"); assert(e != "mp4"@) by { assert("mp4"@[0] == 'm'); }
        reveal_strlit("mkv"); assert(e != "mkv"@) by { assert("mkv"@[0] == 'm'); }
        reveal_strlit("mov"); assert(e != "mov"@) by { assert("mov"@[0] == 'm'); }
        reveal_strlit("avi"); assert(e != "avi"@) by { assert("avi"@[0] == 'a'); }
        reveal_strlit("wmv"); assert(e != "wmv"@) by { assert("wmv"@[0] == 'w'); }
        reveal_strlit("flv"); assert(e != "flv"@) by { assert("flv"@[0] == 'f'); }
        reveal_strlit("webm"); assert(e != "webm"@) by { assert("webm"@.len() == 4); }
        reveal_strlit("m4v"); assert(e != "m4v"@) by { assert("m4v"@[0] == 'm'); }
        reveal_strlit("m2ts"); assert(e != "m2ts"@) by { assert("m2ts"@.len() == 4); }
        reveal_strlit("mp3"); assert(e != "mp3"@) by { assert("mp3"@[0] == 'm'); }
        reveal_strlit("wav"); assert(e != "wav"@) by { assert("wav"@[0] == 'w'); }
        reveal_strlit("flac"); assert(e != "flac"@) by { assert("flac"@.len() == 4); }
        reveal_strlit("aac"); assert(e != "aac"@) by { assert("aac"@[0] == 'a'); }
        reveal_strlit("ogg"); assert(e != "ogg"@) by { assert("ogg"@[0] == 'o'); }
        reveal_strlit("m4a"); assert(e != "m4a"@) by { assert("m4a"@[0] == 'm'); }
        reveal_strlit("wma"); assert(e != "wma"@) by { assert("wma"@[0] == 'w'); }
        reveal_strlit("opus"); assert(e != "opus"@) by { assert("opus"@.len() == 4); }
        reveal_strlit("pdf"); assert(e != "pdf"@) by { assert("pdf"@[0] == 'p'); }
        reveal_strlit("doc"); assert(e != "doc"@) by { assert("doc"@[0] == 'd'); }
        reveal_strlit("docx"); assert(e != "docx"@) by { assert("docx"@.len() == 4); }
        reveal_strlit("xls"); assert(e != "xls"@) by { assert("xls"@[0] == 'x'); }
        reveal_strlit("xlsx"); assert(e != "xlsx"@) by { assert("xlsx"@.len() == 4); }
        reveal_strlit("ppt"); assert(e != "ppt"@) by { assert("ppt"@[0] == 'p'); }
        reveal_strlit("pptx"); assert(e != "pptx"@) by { assert("pptx"@.len() == 4); }
        reveal_strlit("txt"); assert(e != "txt"@) by { assert("txt"@[0] == 't'); }
        reveal_strlit("epub"); assert(e != "epub"@) by { assert("epub"@.len() == 4); }
        reveal_strlit("md"); assert(e != "md"@) by { assert("md"@.len() == 2); }
    }
    if e == "jpeg"@ {
        reveal_strlit("jpeg");
        assert(e.len() == 4 && e[0] == 'j' && e[1] == 'p' && e[2] == 'e' && e[3] == 'g');
        reveal_strlit("zip"); assert(e != "zip"@) by { assert("zip"@.len() == 3); }
        reveal_strlit("rar"); assert(e != "rar"@) by { assert("rar"@.len() == 3); }
        reveal_strlit("7z"); assert(e != "7z"@) by { assert("7z"@.len() == 2); }
        reveal_strlit("tar"); assert(e != "tar"@) by { assert("tar"@.len() == 3); }
        reveal_strlit("gz"); assert(e != "gz"@) by { assert("gz"@.len() == 2); }
        reveal_strlit("bz2"); assert(e != "bz2"@) by { assert("bz2"@.len() == 3); }
        reveal_strlit("xz"); assert(e != "xz"@) by { assert("xz"@.len() == 2); }
        reveal_strlit("iso"); assert(e != "iso"@) by { assert("iso"@.len() == 3); }
        reveal_strlit("dmg"); assert(e != "dmg"@) by { assert("dmg"@.len() == 3); }
        reveal_strlit("pkg"); assert(e != "pkg"@) by { assert("pkg"@.len() == 3); }
        reveal_strlit("tgz"); assert(e != "tgz"@) by { assert("tgz"@.len() == 3); }
        reveal_strlit("exe"); assert(e != "exe"@) by { assert("exe"@.len() == 3); }
        reveal_strlit("msi"); assert(e != "msi"@) by { assert("msi"@.len() == 3); }
        reveal_strlit("apk"); assert(e != "apk"@) by { assert("apk"@.len() == 3); }
        reveal_strlit("deb"); assert(e != "deb"@) by { assert("deb"@.len() == 3); }
        reveal_strlit("rpm"); assert(e != "rpm"@) by { assert("rpm"@.len() == 3); }
        reveal_strlit("appimage"); assert(e != "appimage"@) by { assert("appimage"@.len() == 8); }
        reveal_strlit("bat"); assert(e != "bat"@) by { assert("bat"@.len() == 3); }
        reveal_strlit("cmd"); assert(e != "cmd"@) by { assert("cmd"@.len() == 3); }
        reveal_strlit("ps1"); assert(e != "ps1"@) by { assert("ps1"@.len() == 3); }
        reveal_strlit("mp4"); assert(e != "mp4"@) by { assert("mp4"@.len() == 3); }
        reveal_strlit("mkv"); assert(e != "mkv"@) by { assert("mkv"@.len() == 3); }
        reveal_strlit("mov"); assert(e != "mov"@) by { assert("mov"@.len() == 3); }
        reveal_strlit("avi"); assert(e != "avi"@) by { assert("avi"@.len() == 3); }
        reveal_strlit("wmv"); assert(e != "wmv"@) by { assert("wmv"@.len() == 3); }
        reveal_strlit("flv"); assert(e != "flv"@) by { assert("flv"@.len() == 3); }
        reveal_strlit("webm"); assert(e != "webm"@) by { assert("webm"@[0] == 'w'); }
        reveal_strlit("m4v"); assert(e != "m4v"@) by { assert("m4v"@.len() == 3); }
        reveal_strlit("m2ts"); assert(e != "m2ts"@) by { assert("m2ts"@[0] == 'm'); }
        reveal_strlit("mp3"); assert(e != "mp3"@) by { assert("mp3"@.len() == 3); }
        reveal_strlit("wav"); assert(e != "wav"@) by { assert("wav"@.len() == 3); }
        reveal_strlit("flac"); assert(e != "flac"@) by { assert("flac"@[0] == 'f'); }
        reveal_strlit("aac"); assert(e != "aac"@) by { assert("aac"@.len() == 3); }
        reveal_strlit("ogg"); assert(e != "ogg"@) by { assert("ogg"@.len() == 3); }
        reveal_strlit("m4a"); assert(e != "m4a"@) by { assert("m4a"@.len() == 3); }
        reveal_strlit("wma"); assert(e != "wma"@) by { assert("wma"@.len() == 3); }
        reveal_strlit("opus"); assert(e != "opus"@) by { assert("opus"@[0] == 'o'); }
        reveal_strlit("pdf"); assert(e != "pdf"@) by { assert("pdf"@.len() == 3); }
        reveal_strlit("doc"); assert(e != "doc"@) by { assert("doc"@.len() == 3); }
        reveal_strlit("docx"); assert(e != "docx"@) by { assert("docx"@[0] == 'd'); }
        reveal_strlit("xls"); assert(e != "xls"@) by { assert("xls"@.len() == 3); }
        reveal_strlit("xlsx"); assert(e != "xlsx"@) by { assert("xlsx"@[0] == 'x'); }
        reveal_strlit("ppt"); assert(e != "ppt"@) by { assert("ppt"@.len() == 3); }
        reveal_strlit("pptx"); assert(e != "pptx"@) by { assert("pptx"@[0] == 'p'); }
        reveal_strlit("txt"); assert(e != "txt"@) by { assert("txt"@.len() == 3); }
        reveal_strlit("epub"); assert(e != "epub"@) by { assert("epub"@[0] == 'e'); }
        reveal_strlit("md"); assert(e != "md"@) by { assert("md"@.len() == 2); }
    }
    if e == "gif"@ {
        reveal_strlit("gif");
        assert(e.len() == 3 && e[0] == 'g' && e[1] == 'i' && e[2] == 'f');
        reveal_strlit("zip"); assert(e != "zip"@) by { assert("zip"@[0] == 'z'); }
        reveal_strlit("rar"); assert(e != "rar"@) by { assert("rar"@[0] == 'r'); }
        reveal_strlit("7z"); assert(e != "7z"@) by { assert("7z"@.len() == 2); }
        reveal_strlit("tar"); assert(e != "tar"@) by { assert("tar"@[0] == 't'); }
        reveal_strlit("gz"); assert(e != "gz"@) by { assert("gz"@.len() == 2); }
        reveal_strlit("bz2"); assert(e != "bz2"@) by { assert("bz2"@[0] == 'b'); }
        reveal_strlit("xz"); assert(e != "xz"@) by { assert("xz"@.len() == 2); }
        reveal_strlit("iso"); assert(e != "iso"@) by { assert("iso"@[0] == 'i'); }
        reveal_strlit("dmg"); assert(e != "dmg"@) by { assert("dmg"@[0] == 'd'); }
        reveal_strlit("pkg"); assert(e != "pkg"@) by { assert("pkg"@[0] == 'p'); }
        reveal_strlit("tgz"); assert(e != "tgz"@) by { assert("tgz"@[0] == 't'); }
        reveal_strlit("exe"); assert(e != "exe"@) by { assert("exe"@[0] == 'e'); }
        reveal_strlit("msi"); assert(e != "msi"@) by { assert("msi"@[0] == 'm'); }
        reveal_strlit("apk"); assert(e != "apk"@) by { assert("apk"@[0] == 'a'); }
        reveal_strlit("deb"); assert(e != "deb"@) by { assert("deb"@[0] == 'd'); }
        reveal_strlit("rpm"); assert(e != "rpm"@) by { assert("rpm"@[0] == 'r'); }
        reveal_strlit("appimage"); assert(e != "appimage"@) by { assert("appimage"@.len() == 8); }
        reveal_strlit("bat"); assert(e != "bat"@) by { assert("bat"@[0] == 'b'); }
        reveal_strlit("cmd"); assert(e != "cmd"@) by { assert("cmd"@[0] == 'c'); }
        reveal_strlit("ps1"); assert(e != "ps1"@) by { assert("ps1"@[0] == 'p'); }
        reveal_strlit("mp4"); assert(e != "mp4"@) by { assert("mp4"@[0] == 'm'); }
        reveal_strlit("mkv"); assert(e != "mkv"@) by { assert("mkv"@[0] == 'm'); }
        reveal_strlit("mov"); assert(e != "mov"@) by { assert("mov"@[0] == 'm'); }
        reveal_strlit("avi"); assert(e != "avi"@) by { assert("avi"@[0] == 'a'); }
        reveal_strlit("wmv"); assert(e != "wmv"@) by { assert("wmv"@[0] == 'w'); }
        reveal_strlit("flv"); assert(e != "flv"@) by { assert("flv"@[0] == 'f'); }
        reveal_strlit("webm"); assert(e != "webm"@) by { assert("webm"@.len() == 4); }
        reveal_strlit("m4v"); assert(e != "m4v"@) by { assert("m4v"@[0] == 'm'); }
        reveal_strlit("m2ts"); assert(e != "m2ts"@) by { assert("m2ts"@.len() == 4); }
        reveal_strlit("mp3"); assert(e != "mp3"@) by { assert("mp3"@[0] == 'm'); }
        reveal_strlit("wav"); assert(e != "wav"@) by { assert("wav"@[0] == 'w'); }
        reveal_strlit("flac"); assert(e != "flac"@) by { assert("flac"@.len() == 4); }
        reveal_strlit("aac"); assert(e != "aac"@) by { assert("aac"@[0] == 'a'); }
        reveal_strlit("ogg"); assert(e != "ogg"@) by { assert("ogg"@[0] == 'o'); }
        reveal_strlit("m4a"); assert(e != "m4a"@) by { assert("m4a"@[0] == 'm'); }
        reveal_strlit("wma"); assert(e != "wma"@) by { assert("wma"@[0] == 'w'); }
        reveal_strlit("opus"); assert(e != "opus"@) by { assert("opus"@.len() == 4); }
        reveal_strlit("pdf"); assert(e != "pdf"@) by { assert("pdf"@[0] == 'p'); }
        reveal_strlit("doc"); assert(e != "doc"@) by { assert("doc"@[0] == 'd'); }
        reveal_strlit("docx"); assert(e != "docx"@) by { assert("docx"@.len() == 4); }
        reveal_strlit("xls"); assert(e != "xls"@) by { assert("xls"@[0] == 'x'); }
        reveal_strlit("xlsx"); assert(e != "xlsx"@) by { assert("xlsx"@.len() == 4); }
        reveal_strlit("ppt"); assert(e != "ppt"@) by { assert("ppt"@[0] == 'p'); }
        reveal_strlit("pptx"); assert(e != "pptx"@) by { assert("pptx"@.len() == 4); }
        reveal_strlit("txt"); assert(e != "txt"@) by { assert("txt"@[0] == 't'); }
        reveal_strlit("epub"); assert(e != "epub"@) by { assert("epub"@.len() == 4); }
        reveal_strlit("md"); assert(e != "md"@) by { assert("md"@.len() == 2); }
    }
    if e == "webp"@ {
        reveal_strlit("webp");
        assert(e.len() == 4 && e[0] == 'w' && e[1] == 'e' && e[2] == 'b' && e[3] == 'p');
        reveal_strlit("zip"); assert(e != "zip"@) by { assert("zip"@.len() == 3); }
        reveal_strlit("rar"); assert(e != "rar"@) by { assert("rar"@.len() == 3); }
        reveal_strlit("7z"); assert(e != "7z"@) by { assert("7z"@.len() == 2); }
        reveal_strlit("tar"); assert(e != "tar"@) by { assert("tar"@.len() == 3); }
        reveal_strlit("gz"); assert(e != "gz"@) by { assert("gz"@.len() == 2); }
        reveal_strlit("bz2"); assert(e != "bz2"@) by { assert("bz2"@.len() == 3); }
        reveal_strlit("xz"); assert(e != "xz"@) by { assert("xz"@.len() == 2); }
        reveal_strlit("iso"); assert(e != "iso"@) by { assert("iso"@.len() == 3); }
        reveal_strlit("dmg"); assert(e != "dmg"@) by { assert("dmg"@.len() == 3); }
        reveal_strlit("pkg"); assert(e != "pkg"@) by { assert("pkg"@.len() == 3); }
        reveal_strlit("tgz"); assert(e != "tgz"@) by { assert("tgz"@.len() == 3); }
        reveal_strlit("exe"); assert(e != "exe"@) by { assert("exe"@.len() == 3); }
        reveal_strlit("msi"); assert(e != "msi"@) by { assert("msi"@.len() == 3); }
        reveal_strlit("apk"); assert(e != "apk"@) by { assert("apk"@.len() == 3); }
        reveal_strlit("deb"); assert(e != "deb"@) by { assert("deb"@.len() == 3); }
        reveal_strlit("rpm"); assert(e != "rpm"@) by { assert("rpm"@.len() == 3); }
        reveal_strlit("appimage"); assert(e != "appimage"@) by { assert("appimage"@.len() == 8); }
        reveal_strlit("bat"); assert(e != "bat"@) by { assert("bat"@.len() == 3); }
        reveal_strlit("cmd"); assert(e != "cmd"@) by { assert("cmd"@.len() == 3); }
        reveal_strlit("ps1"); assert(e != "ps1"@) by { assert("ps1"@.len() == 3); }
        reveal_strlit("mp4"); assert(e != "mp4"@) by { assert("mp4"@.len() == 3); }
        reveal_strlit("mkv"); assert(e != "mkv"@) by { assert("mkv"@.len() == 3); }
        reveal_strlit("mov"); assert(e != "mov"@) by { assert("mov"@.len() == 3); }
        reveal_strlit("avi"); assert(e != "avi"@) by { assert("avi"@.len() == 3); }
        reveal_strlit("wmv"); assert(e != "wmv"@) by { assert("wmv"@.len() == 3); }
        reveal_strlit("flv"); assert(e != "flv"@) by { assert("flv"@.len() == 3); }
        reveal_strlit("webm"); assert(e != "webm"@) by { assert("webm"@[3] == 'm'); }
        reveal_strlit("m4v"); assert(e != "m4v"@) by { assert("m4v"@.len() == 3); }
        reveal_strlit("m2ts"); assert(e != "m2ts"@) by { assert("m2ts"@[0] == 'm'); }
        reveal_strlit("mp3"); assert(e != "mp3"@) by { assert("mp3"@.len() == 3); }
        reveal_strlit("wav"); assert(e != "wav"@) by { assert("wav"@.len() == 3); }
        reveal_strlit("flac"); assert(e != "flac"@) by { assert("flac"@[0] == 'f'); }
        reveal_strlit("aac"); assert(e != "aac"@) by { assert("aac"@.len() == 3); }
        reveal_strlit("ogg"); assert(e != "ogg"@) by { assert("ogg"@.len() == 3); }
        reveal_strlit("m4a"); assert(e != "m4a"@) by { assert("m4a"@.len() == 3); }
        reveal_strlit("wma"); assert(e != "wma"@) by { assert("wma"@.len() == 3); }
        reveal_strlit("opus"); assert(e != "opus"@) by { assert("opus"@[0] == 'o'); }
        reveal_strlit("pdf"); assert(e != "pdf"@) by { assert("pdf"@.len() == 3); }
        reveal_strlit("doc"); assert(e != "doc"@) by { assert("doc"@.len() == 3); }
        reveal_strlit("docx"); assert(e != "docx"@) by { assert("docx"@[0] == 'd'); }
        reveal_strlit("xls"); assert(e != "xls"@) by { assert("xls"@.len() == 3); }
        reveal_strlit("xlsx"); assert(e != "xlsx"@) by { assert("xlsx"@[0] == 'x'); }
        reveal_strlit("ppt"); assert(e != "ppt"@) by { assert("ppt"@.len() == 3); }
        reveal_strlit("pptx"); assert(e != "pptx"@) by { assert("pptx"@[0] == 'p'); }
        reveal_strlit("txt"); assert(e != "txt"@) by { assert("txt"@.len() == 3); }
        reveal_strlit("epub"); assert(e != "epub"@) by { assert("epub"@[0] == 'e'); }
        reveal_strlit("md"); assert(e != "md"@) by { assert("md"@.len() == 2); }
    }
    if e == "svg"@ {
        reveal_strlit("svg");
        assert(e.len() == 3 && e[0] == 's' && e[1] == 'v' && e[2] == 'g');
        reveal_strlit("zip"); assert(e != "zip"@) by { assert("zip"@[0] == 'z'); }
        reveal_strlit("rar"); assert(e != "rar"@) by { assert("rar"@[0] == 'r'); }
        reveal_strlit("7z"); assert(e != "7z"@) by { assert("7z"@.len() == 2); }
        reveal_strlit("tar"); assert(e != "tar"@) by { assert("tar"@[0] == 't'); }
        reveal_strlit("gz"); assert(e != "gz"@) by { assert("gz"@.len() == 2); }
        reveal_strlit("bz2"); assert(e != "bz2"@) by { assert("bz2"@[0] == 'b'); }
        reveal_strlit("xz"); assert(e != "xz"@) by { assert("xz"@.len() == 2); }
        reveal_strlit("iso"); assert(e != "iso"@) by { assert("iso"@[0] == 'i'); }
        reveal_strlit("dmg"); assert(e != "dmg"@) by { assert("dmg"@[0] == 'd'); }
        reveal_strlit("pkg"); assert(e != "pkg"@) by { assert("pkg"@[0] == 'p'); }
        reveal_strlit("tgz"); assert(e != "tgz"@) by { assert("tgz"@[0] == 't'); }
        reveal_strlit("exe"); assert(e != "exe"@) by { assert("exe"@[0] == 'e'); }
        reveal_strlit("msi"); assert(e != "msi"@) by { assert("msi"@[0] == 'm'); }
        reveal_strlit("apk"); assert(e != "apk"@) by { assert("apk"@[0] == 'a'); }
        reveal_strlit("deb"); assert(e != "deb"@) by { assert("deb"@[0] == 'd'); }
        reveal_strlit("rpm"); assert(e != "rpm"@) by { assert("rpm"@[0] == 'r'); }
        reveal_strlit("appimage"); assert(e != "appimage"@) by { assert("appimage"@.len() == 8); }
        reveal_strlit("bat"); assert(e != "bat"@) by { assert("bat"@[0] == 'b'); }
        reveal_strlit("cmd"); assert(e != "cmd"@) by { assert("cmd"@[0] == 'c'); }
        reveal_strlit("ps1"); assert(e != "ps1"@) by { assert("ps1"@[0] == 'p'); }
        reveal_strlit("mp4"); assert(e != "mp4"@) by { assert("mp4"@[0] == 'm'); }
        reveal_strlit("mkv"); assert(e != "mkv"@) by { assert("mkv"@[0] == 'm'); }
        reveal_strlit("mov"); assert(e != "mov"@) by { assert("mov"@[0] == 'm'); }
        reveal_strlit("avi"); assert(e != "avi"@) by { assert("avi"@[0] == 'a'); }
        reveal_strlit("wmv"); assert(e != "wmv"@) by { assert("wmv"@[0] == 'w'); }
        reveal_strlit("flv"); assert(e != "flv"@) by { assert("flv"@[0] == 'f'); }
        reveal_strlit("webm"); assert(e != "webm"@) by { assert("webm"@.len() == 4); }
        reveal_strlit("m4v"); assert(e != "m4v"@) by { assert("m4v"@[0] == 'm'); }
        reveal_strlit("m2ts"); assert(e != "m2ts"@) by { assert("m2ts"@.len() == 4); }
        reveal_strlit("mp3"); assert(e != "mp3"@) by { assert("mp3"@[0] == 'm'); }
        reveal_strlit("wav"); assert(e != "wav"@) by { assert("wav"@[0] == 'w'); }
        reveal_strlit("flac"); assert(e != "flac"@) by { assert("flac"@.len() == 4); }
        reveal_strlit("aac"); assert(e != "aac"@) by { assert("aac"@[0] == 'a'); }
        reveal_strlit("ogg"); assert(e != "ogg"@) by { assert("ogg"@[0] == 'o'); }
        reveal_strlit("m4a"); assert(e != "m4a"@) by { assert("m4a"@[0] == 'm'); }
        reveal_strlit("wma"); assert(e != "wma"@) by { assert("wma"@[0] == 'w'); }
        reveal_strlit("opus"); assert(e != "opus"@) by { assert("opus"@.len() == 4); }
        reveal_strlit("pdf"); assert(e != "pdf"@) by { assert("pdf"@[0] == 'p'); }
        reveal_strlit("doc"); assert(e != "doc"@) by { assert("doc"@[0] == 'd'); }
        reveal_strlit("docx"); assert(e != "docx"@) by { assert("docx"@.len() == 4); }
        reveal_strlit("xls"); assert(e != "xls"@) by { assert("xls"@[0] == 'x'); }
        reveal_strlit("xlsx"); assert(e != "xlsx"@) by { assert("xlsx"@.len() == 4); }
        reveal_strlit("ppt"); assert(e != "ppt"@) by { assert("ppt"@[0] == 'p'); }
        reveal_strlit("pptx"); assert(e != "pptx"@) by { assert("pptx"@.len() == 4); }
        reveal_strlit("txt"); assert(e != "txt"@) by { assert("txt"@[0] == 't'); }
        reveal_strlit("epub"); assert(e != "epub"@) by { assert("epub"@.len() == 4); }
        reveal_strlit("md"); assert(e != "md"@) by { assert("md"@.len() == 2); }
    }
    if e == "bmp"@ {
        reveal_strlit("bmp");
        assert(e.len() == 3 && e[0] == 'b' && e[1] == 'm' && e[2] == 'p');
        reveal_strlit("zip"); assert(e != "zip"@) by { assert("zip"@[0] == 'z'); }
        reveal_strlit("rar"); assert(e != "rar"@) by { assert("rar"@[0] == 'r'); }
        reveal_strlit("7z"); assert(e != "7z"@) by { assert("7z"@.len() == 2); }
        reveal_strlit("tar"); assert(e != "tar"@) by { assert("tar"@[0] == 't'); }
        reveal_strlit("gz"); assert(e != "gz"@) by { assert("gz"@.len() == 2); }
        reveal_strlit("bz2"); assert(e != "bz2"@) by { assert("bz2"@[1] == 'z'); }
        reveal_strlit("xz"); assert(e != "xz"@) by { assert("xz"@.len() == 2); }
        reveal_strlit("iso"); assert(e != "iso"@) by { assert("iso"@[0] == 'i'); }
        reveal_strlit("dmg"); assert(e != "dmg"@) by { assert("dmg"@[0] == 'd'); }
        reveal_strlit("pkg"); assert(e != "pkg"@) by { assert("pkg"@[0] == 'p'); }
        reveal_strlit("tgz"); assert(e != "tgz"@) by { assert("tgz"@[0] == 't'); }
        reveal_strlit("exe"); assert(e != "exe"@) by { assert("exe"@[0] == 'e'); }
        reveal_strlit("msi"); assert(e != "msi"@) by { assert("msi"@[0] == 'm'); }
        reveal_strlit("apk"); assert(e != "apk"@) by { assert("apk"@[0] == 'a'); }
        reveal_strlit("deb"); assert(e != "deb"@) by { assert("deb"@[0] == 'd'); }
        reveal_strlit("rpm"); assert(e != "rpm"@) by { assert("rpm"@[0] == 'r'); }
        reveal_strlit("appimage"); assert(e != "appimage"@) by { assert("appimage"@.len() == 8); }
        reveal_strlit("bat"); assert(e != "bat"@) by { assert("bat"@[1] == 'a'); }
        reveal_strlit("cmd"); assert(e != "cmd"@) by { assert("cmd"@[0] == 'c'); }
        reveal_strlit("ps1"); assert(e != "ps1"@) by { assert("ps1"@[0] == 'p'); }
        reveal_strlit("mp4"); assert(e != "mp4"@) by { assert("mp4"@[0] == 'm'); }
        reveal_strlit("mkv"); assert(e != "mkv"@) by { assert("mkv"@[0] == 'm'); }
        reveal_strlit("mov"); assert(e != "mov"@) by { assert("mov"@[0] == 'm'); }
        reveal_strlit("avi"); assert(e != "avi"@) by { assert("avi"@[0] == 'a'); }
        reveal_strlit("wmv"); assert(e != "wmv"@) by { assert("wmv"@[0] == 'w'); }
        reveal_strlit("flv"); assert(e != "flv"@) by { assert("flv"@[0] == 'f'); }
        reveal_strlit("webm"); assert(e != "webm"@) by { assert("webm"@.len() == 4); }
        reveal_strlit("m4v"); assert(e != "m4v"@) by { assert("m4v"@[0] == 'm'); }
        reveal_strlit("m2ts"); assert(e != "m2ts"@) by { assert("m2ts"@.len() == 4); }
        reveal_strlit("mp3"); assert(e != "mp3"@) by { assert("mp3"@[0] == 'm'); }
        reveal_strlit("wav"); assert(e != "wav"@) by { assert("wav"@[0] == 'w'); }
        reveal_strlit("flac"); assert(e != "flac"@) by { assert("flac"@.len() == 4); }
        reveal_strlit("aac"); assert(e != "aac"@) by { assert("aac"@[0] == 'a'); }
        reveal_strlit("ogg"); assert(e != "ogg"@) by { assert("ogg"@[0] == 'o'); }
        reveal_strlit("m4a"); assert(e != "m4a"@) by { assert("m4a"@[0] == 'm'); }
        reveal_strlit("wma"); assert(e != "wma"@) by { assert("wma"@[0] == 'w'); }
        reveal_strlit("opus"); assert(e != "opus"@) by { assert("opus"@.len() == 4); }
        reveal_strlit("pdf"); assert(e != "pdf"@) by { assert("pdf"@[0] == 'p'); }
        reveal_strlit("doc"); assert(e != "doc"@) by { assert("doc"@[0] == 'd'); }
        reveal_strlit("docx"); assert(e != "docx"@) by { assert("docx"@.len() == 4); }
        reveal_strlit("xls"); assert(e != "xls"@) by { assert("xls"@[0] == 'x'); }
        reveal_strlit("xlsx"); assert(e != "xlsx"@) by { assert("xlsx"@.len() == 4); }
        reveal_strlit("ppt"); assert(e != "ppt"@) by { assert("ppt"@[0] == 'p'); }
        reveal_strlit("pptx"); assert(e != "pptx"@) by { assert("pptx"@.len() == 4); }
        reveal_strlit("txt"); assert(e != "txt"@) by { assert("txt"@[0] == 't'); }
        reveal_strlit("epub"); assert(e != "epub"@) by { assert("epub"@.len() == 4); }
        reveal_strlit("md"); assert(e != "md"@) by { assert("md"@.len() == 2); }
    }
    if e == "ico"@ {
        reveal_strlit("ico");
        assert(e.len() == 3 && e[0] == 'i' && e[1] == 'c' && e[2] == 'o');
        reveal_strlit("zip"); assert(e != "zip"@) by { assert("zip"@[0] == 'z'); }
        reveal_strlit("rar"); assert(e != "rar"@) by { assert("rar"@[0] == 'r'); }
        reveal_strlit("7z"); assert(e != "7z"@) by { assert("7z"@.len() == 2); }
        reveal_strlit("tar"); assert(e != "tar"@) by { assert("tar"@[0] == 't'); }
        reveal_strlit("gz"); assert(e != "gz"@) by { assert("gz"@.len() == 2); }
        reveal_strlit("bz2"); assert(e != "bz2"@) by { assert("bz2"@[0] == 'b'); }
        reveal_strlit("xz"); assert(e != "xz"@) by { assert("xz"@.len() == 2); }
        reveal_strlit("iso"); assert(e != "iso"@) by { assert("iso"@[1] == 's'); }
        reveal_strlit("dmg"); assert(e != "dmg"@) by { assert("dmg"@[0] == 'd'); }
        reveal_strlit("pkg"); assert(e != "pkg"@) by { assert("pkg"@[0] == 'p'); }
        reveal_strlit("tgz"); assert(e != "tgz"@) by { assert("tgz"@[0] == 't'); }
        reveal_strlit("exe"); assert(e != "exe"@) by { assert("exe"@[0] == 'e'); }
        reveal_strlit("msi"); assert(e != "msi"@) by { assert("msi"@[0] == 'm'); }
        reveal_strlit("apk"); assert(e != "apk"@) by { assert("apk"@[0] == 'a'); }
        reveal_strlit("deb"); assert(e != "deb"@) by { assert("deb"@[0] == 'd'); }
        reveal_strlit("rpm"); assert(e != "rpm"@) by { assert("rpm"@[0] == 'r'); }
        reveal_strlit("appimage"); assert(e != "appimage"@) by { assert("appimage"@.len() == 8); }
        reveal_strlit("bat"); assert(e != "bat"@) by { assert("bat"@[0] == 'b'); }
        reveal_strlit("cmd"); assert(e != "cmd"@) by { assert("cmd"@[0] == 'c'); }
        reveal_strlit("ps1"); assert(e != "ps1"@) by { assert("ps1"@[0] == 'p'); }
        reveal_strlit("mp4"); assert(e != "mp4"@) by { assert("mp4"@[0] == 'm'); }
        reveal_strlit("mkv"); assert(e != "mkv"@) by { assert("mkv"@[0] == 'm'); }
        reveal_strlit("mov"); assert(e != "mov"@) by { assert("mov"@[0] == 'm'); }
        reveal_strlit("avi"); assert(e != "avi"@) by { assert("avi"@[0] == 'a'); }
        reveal_strlit("wmv"); assert(e != "wmv"@) by { assert("wmv"@[0] == 'w'); }
        reveal_strlit("flv"); assert(e != "flv"@) by { assert("flv"@[0] == 'f'); }
        reveal_strlit("webm"); assert(e != "webm"@) by { assert("webm"@.len() == 4); }
        reveal_strlit("m4v"); assert(e != "m4v"@) by { assert("m4v"@[0] == 'm'); }
        reveal_strlit("m2ts"); assert(e != "m2ts"@) by { assert("m2ts"@.len() == 4); }
        reveal_strlit("mp3"); assert(e != "mp3"@) by { assert("mp3"@[0] == 'm'); }
        reveal_strlit("wav"); assert(e != "wav"@) by { assert("wav"@[0] == 'w'); }
        reveal_strlit("flac"); assert(e != "flac"@) by { assert("flac"@.len() == 4); }
        reveal_strlit("aac"); assert(e != "aac"@) by { assert("aac"@[0] == 'a'); }
        reveal_strlit("ogg"); assert(e != "ogg"@) by { assert("ogg"@[0] == 'o'); }
        reveal_strlit("m4a"); assert(e != "m4a"@) by { assert("m4a"@[0] == 'm'); }
        reveal_strlit("wma"); assert(e != "wma"@) by { assert("wma"@[0] == 'w'); }
        reveal_strlit("opus"); assert(e != "opus"@) by { assert("opus"@.len() == 4); }
        reveal_strlit("pdf"); assert(e != "pdf"@) by { assert("pdf"@[0] == 'p'); }
        reveal_strlit("doc"); assert(e != "doc"@) by { assert("doc"@[0] == 'd'); }
        reveal_strlit("docx"); assert(e != "docx"@) by { assert("docx"@.len() == 4); }
        reveal_strlit("xls"); assert(e != "xls"@) by { assert("xls"@[0] == 'x'); }
        reveal_strlit("xlsx"); assert(e != "xlsx"@) by { assert("xlsx"@.len() == 4); }
        reveal_strlit("ppt"); assert(e != "ppt"@) by { assert("ppt"@[0] == 'p'); }
        reveal_strlit("pptx"); assert(e != "pptx"@) by { assert("pptx"@.len() == 4); }
        reveal_strlit("txt"); assert(e != "txt"@) by { assert("txt"@[0] == 't'); }
        reveal_strlit("epub"); assert(e != "epub"@) by { assert("epub"@.len() == 4); }
        reveal_strlit("md"); assert(e != "md"@) by { assert("md"@.len() == 2); }
    }
    if e == "tiff"@ {
        reveal_strlit("tiff");
        assert(e.len() == 4 && e[0] == 't' && e[1] == 'i' && e[2] == 'f' && e[3] == 'f');
        reveal_strlit("zip"); assert(e != "zip"@) by { assert("zip"@.len() == 3); }
        reveal_strlit("rar"); assert(e != "rar"@) by { assert("rar"@.len() == 3); }
        reveal_strlit("7z"); assert(e != "7z"@) by { assert("7z"@.len() == 2); }
        reveal_strlit("tar"); assert(e != "tar"@) by { assert("tar"@.len() == 3); }
        reveal_strlit("gz"); assert(e != "gz"@) by { assert("gz"@.len() == 2); }
        reveal_strlit("bz2"); assert(e != "bz2"@) by { assert("bz2"@.len() == 3); }
        reveal_strlit("xz"); assert(e != "xz"@) by { assert("xz"@.len() == 2); }
        reveal_strlit("iso"); assert(e != "iso"@) by { assert("iso"@.len() == 3); }
        reveal_strlit("dmg"); assert(e != "dmg"@) by { assert("dmg"@.len() == 3); }
        reveal_strlit("pkg"); assert(e != "pkg"@) by { assert("pkg"@.len() == 3); }
        reveal_strlit("tgz"); assert(e != "tgz"@) by { assert("tgz"@.len() == 3); }
        reveal_strlit("exe"); assert(e != "exe"@) by { assert("exe"@.len() == 3); }
        reveal_strlit("msi"); assert(e != "msi"@) by { assert("msi"@.len() == 3); }
        reveal_strlit("apk"); assert(e != "apk"@) by { assert("apk"@.len() == 3); }
        reveal_strlit("deb"); assert(e != "deb"@) by { assert("deb"@.len() == 3); }
        reveal_strlit("rpm"); assert(e != "rpm"@) by { assert("rpm"@.len() == 3); }
        reveal_strlit("appimage"); assert(e != "appimage"@) by { assert("appimage"@.len() == 8); }
        reveal_strlit("bat"); assert(e != "bat"@) by { assert("bat"@.len() == 3); }
        reveal_strlit("cmd"); assert(e != "cmd"@) by { assert("cmd"@.len() == 3); }
        reveal_strlit("ps1"); assert(e != "ps1"@) by { assert("ps1"@.len() == 3); }
        reveal_strlit("mp4"); assert(e != "mp4"@) by { assert("mp4"@.len() == 3); }
        reveal_strlit("mkv"); assert(e != "mkv"@) by { assert("mkv"@.len() == 3); }
        reveal_strlit("mov"); assert(e != "mov"@) by { assert("mov"@.len() == 3); }
        reveal_strlit("avi"); assert(e != "avi"@) by { assert("avi"@.len() == 3); }
        reveal_strlit("wmv"); assert(e != "wmv"@) by { assert("wmv"@.len() == 3); }
        reveal_strlit("flv"); assert(e != "flv"@) by { assert("flv"@.len() == 3); }
        reveal_strlit("webm"); assert(e != "webm"@) by { assert("webm"@[0] == 'w'); }
        reveal_strlit("m4v"); assert(e != "m4v"@) by { assert("m4v"@.len() == 3); }
        reveal_strlit("m2ts"); assert(e != "m2ts"@) by { assert("m2ts"@[0] == 'm'); }
        reveal_strlit("mp3"); assert(e != "mp3"@) by { assert("mp3"@.len() == 3); }
        reveal_strlit("wav"); assert(e != "wav"@) by { assert("wav"@.len() == 3); }
        reveal_strlit("flac"); assert(e != "flac"@) by { assert("flac"@[0] == 'f'); }
        reveal_strlit("aac"); assert(e != "aac"@) by { assert("aac"@.len() == 3); }
        reveal_strlit("ogg"); assert(e != "ogg"@) by { assert("ogg"@.len() == 3); }
        reveal_strlit("m4a"); assert(e != "m4a"@) by { assert("m4a"@.len() == 3); }
        reveal_strlit("wma"); assert(e != "wma"@) by { assert("wma"@.len() == 3); }
        reveal_strlit("opus"); assert(e != "opus"@) by { assert("opus"@[0] == 'o'); }
        reveal_strlit("pdf"); assert(e != "pdf"@) by { assert("pdf"@.len() == 3); }
        reveal_strlit("doc"); assert(e != "doc"@) by { assert("doc"@.len() == 3); }
        reveal_strlit("docx"); assert(e != "docx"@) by { assert("docx"@[0] == 'd'); }
        reveal_strlit("xls"); assert(e != "xls"@) by { assert("xls"@.len() == 3); }
        reveal_strlit("xlsx"); assert(e != "xlsx"@) by { assert("xlsx"@[0] == 'x'); }
        reveal_strlit("ppt"); assert(e != "ppt"@) by { assert("ppt"@.len() == 3); }
        reveal_strlit("pptx"); assert(e != "pptx"@) by { assert("pptx"@[0] == 'p'); }
        reveal_strlit("txt"); assert(e != "txt"@) by { assert("txt"@.len() == 3); }
        reveal_strlit("epub"); assert(e != "epub"@) by { assert("epub"@[0] == 'e'); }
        reveal_strlit("md"); assert(e != "md"@) by { assert("md"@.len() == 2); }
    }
    if e == "rs"@ {
        reveal_strlit("rs");
        assert(e.len() == 2 && e[0] == 'r' && e[1] == 's');
        reveal_strlit("zip"); assert(e != "zip"@) by { assert("zip"@.len() == 3); }
        reveal_strlit("rar"); assert(e != "rar"@) by { assert("rar"@.len() == 3); }
        reveal_strlit("7z"); assert(e != "7z"@) by { assert("7z"@[0] == '7'); }
        reveal_strlit("tar"); assert(e != "tar"@) by { assert("tar"@.len() == 3); }
        reveal_strlit("gz"); assert(e != "gz"@) by { assert("gz"@[0] == 'g'); }
        reveal_strlit("bz2"); assert(e != "bz2"@) by { assert("bz2"@.len() == 3); }
        reveal_strlit("xz"); assert(e != "xz"@) by { assert("xz"@[0] == 'x'); }
        reveal_strlit("iso"); assert(e != "iso"@) by { assert("iso"@.len() == 3); }
        reveal_strlit("dmg"); assert(e != "dmg"@) by { assert("dmg"@.len() == 3); }
        reveal_strlit("pkg"); assert(e != "pkg"@) by { assert("pkg"@.len() == 3); }
        reveal_strlit("tgz"); assert(e != "tgz"@) by { assert("tgz"@.len() == 3); }
        reveal_strlit("exe"); assert(e != "exe"@) by { assert("exe"@.len() == 3); }
        reveal_strlit("msi"); assert(e != "msi"@) by { assert("msi"@.len() == 3); }
        reveal_strlit("apk"); assert(e != "apk"@) by { assert("apk"@.len() == 3); }
        reveal_strlit("deb"); assert(e != "deb"@) by { assert("deb"@.len() == 3); }
        reveal_strlit("rpm"); assert(e != "rpm"@) by { assert("rpm"@.len() == 3); }
        reveal_strlit("appimage"); assert(e != "appimage"@) by { assert("appimage"@.len() == 8); }
        reveal_strlit("bat"); assert(e != "bat"@) by { assert("bat"@.len() == 3); }
        reveal_strlit("cmd"); assert(e != "cmd"@) by { assert("cmd"@.len() == 3); }
        reveal_strlit("ps1"); assert(e != "ps1"@) by { assert("ps1"@.len() == 3); }
        reveal_strlit("mp4"); assert(e != "mp4"@) by { assert("mp4"@.len() == 3); }
        reveal_strlit("mkv"); assert(e != "mkv"@) by { assert("mkv"@.len() == 3); }
        reveal_strlit("mov"); assert(e != "mov"@) by { assert("mov"@.len() == 3); }
        reveal_strlit("avi"); assert(e != "avi"@) by { assert("avi"@.len() == 3); }
        reveal_strlit("wmv"); assert(e != "wmv"@) by { assert("wmv"@.len() == 3); }
        reveal_strlit("flv"); assert(e != "flv"@) by { assert("flv"@.len() == 3); }
        reveal_strlit("webm"); assert(e != "webm"@) by { assert("webm"@.len() == 4); }
        reveal_strlit("m4v"); assert(e != "m4v"@) by { assert("m4v"@.len() == 3); }
        reveal_strlit("m2ts"); assert(e != "m2ts"@) by { assert("m2ts"@.len() == 4); }
        reveal_strlit("mp3"); assert(e != "mp3"@) by { assert("mp3"@.len() == 3); }
        reveal_strlit("wav"); assert(e != "wav"@) by { assert("wav"@.len() == 3); }
        reveal_strlit("flac"); assert(e != "flac"@) by { assert("flac"@.len() == 4); }
        reveal_strlit("aac"); assert(e != "aac"@) by { assert("aac"@.len() == 3); }
        reveal_strlit("ogg"); assert(e != "ogg"@) by { assert("ogg"@.len() == 3); }
        reveal_strlit("m4a"); assert(e != "m4a"@) by { assert("m4a"@.len() == 3); }
        reveal_strlit("wma"); assert(e != "wma"@) by { assert("wma"@.len() == 3); }
        reveal_strlit("opus"); assert(e != "opus"@) by { assert("opus"@.len() == 4); }
        reveal_strlit("pdf"); assert(e != "pdf"@) by { assert("pdf"@.len() == 3); }
        reveal_strlit("doc"); assert(e != "doc"@) by { assert("doc"@.len() == 3); }
        reveal_strlit("docx"); assert(e != "docx"@) by { assert("docx"@.len() == 4); }
        reveal_strlit("xls"); assert(e != "xls"@) by { assert("xls"@.len() == 3); }
        reveal_strlit("xlsx"); assert(e != "xlsx"@) by { assert("xlsx"@.len() == 4); }
        reveal_strlit("ppt"); assert(e != "ppt"@) by { assert("ppt"@.len() == 3); }
        reveal_strlit("pptx"); assert(e != "pptx"@) by { assert("pptx"@.len() == 4); }
        reveal_strlit("txt"); assert(e != "txt"@) by { assert("txt"@.len() == 3); }
        reveal_strlit("epub"); assert(e != "epub"@) by { assert("epub"@.len() == 4); }
        reveal_strlit("md"); assert(e != "md"@) by { assert("md"@[0] == 'm'); }
        reveal_strlit("png"); assert(e != "png"@) by { assert("png"@.len() == 3); }
        reveal_strlit("jpg"); assert(e != "jpg"@) by { assert("jpg"@.len() == 3); }
        reveal_strlit("jpeg"); assert(e != "jpeg"@) by { assert("jpeg"@.len() == 4); }
        reveal_strlit("gif"); assert(e != "gif"@) by { assert("gif"@.len() == 3); }
        reveal_strlit("webp"); assert(e != "webp"@) by { assert("webp"@.len() == 4); }
        reveal_strlit("svg"); assert(e != "svg"@) by { assert("svg"@.len() == 3); }
        reveal_strlit("bmp"); assert(e != "bmp"@) by { assert("bmp"@.len() == 3); }
        reveal_strlit("ico"); assert(e != "ico"@) by { assert("ico"@.len() == 3); }
        reveal_strlit("tiff"); assert(e != "tiff"@) by { assert("tiff"@.len() == 4); }
    }
    if e == "js"@ {
        reveal_strlit("js");
        assert(e.len() == 2 && e[0] == 'j' && e[1] == 's');
        reveal_strlit("zip"); assert(e != "zip"@) by { assert("zip"@.len() == 3); }
        reveal_strlit("rar"); assert(e != "rar"@) by { assert("rar"@.len() == 3); }
        reveal_strlit("7z"); assert(e != "7z"@) by { assert("7z"@[0] == '7'); }
        reveal_strlit("tar"); assert(e != "tar"@) by { assert("tar"@.len() == 3); }
        reveal_strlit("gz"); assert(e != "gz"@) by { assert("gz"@[0] == 'g'); }
        reveal_strlit("bz2"); assert(e != "bz2"@) by { assert("bz2"@.len() == 3); }
        reveal_strlit("xz"); assert(e != "xz"@) by { assert("xz"@[0] == 'x'); }
        reveal_strlit("iso"); assert(e != "iso"@) by { assert("iso"@.len() == 3); }
        reveal_strlit("dmg"); assert(e != "dmg"@) by { assert("dmg"@.len() == 3); }
        reveal_strlit("pkg"); assert(e != "pkg"@) by { assert("pkg"@.len() == 3); }
        reveal_strlit("tgz"); assert(e != "tgz"@) by { assert("tgz"@.len() == 3); }
        reveal_strlit("exe"); assert(e != "exe"@) by { assert("exe"@.len() == 3); }
        reveal_strlit("msi"); assert(e != "msi"@) by { assert("msi"@.len() == 3); }
        reveal_strlit("apk"); assert(e != "apk"@) by { assert("apk"@.len() == 3); }
        reveal_strlit("deb"); assert(e != "deb"@) by { assert("deb"@.len() == 3); }
        reveal_strlit("rpm"); assert(e != "rpm"@) by { assert("rpm"@.len() == 3); }
        reveal_strlit("appimage"); assert(e != "appimage"@) by { assert("appimage"@.len() == 8); }
        reveal_strlit("bat"); assert(e != "bat"@) by { assert("bat"@.len() == 3); }
        reveal_strlit("cmd"); assert(e != "cmd"@) by { assert("cmd"@.len() == 3); }
        reveal_strlit("ps1"); assert(e != "ps1"@) by { assert("ps1"@.len() == 3); }
        reveal_strlit("mp4"); assert(e != "mp4"@) by { assert("mp4"@.len() == 3); }
        reveal_strlit("mkv"); assert(e != "mkv"@) by { assert("mkv"@.len() == 3); }
        reveal_strlit("mov"); assert(e != "mov"@) by { assert("mov"@.len() == 3); }
        reveal_strlit("avi"); assert(e != "avi"@) by { assert("avi"@.len() == 3); }
        reveal_strlit("wmv"); assert(e != "wmv"@) by { assert("wmv"@.len() == 3); }
        reveal_strlit("flv"); assert(e != "flv"@) by { assert("flv"@.len() == 3); }
        reveal_strlit("webm"); assert(e != "webm"@) by { assert("webm"@.len() == 4); }
        reveal_strlit("m4v"); assert(e != "m4v"@) by { assert("m4v"@.len() == 3); }
        reveal_strlit("m2ts"); assert(e != "m2ts"@) by { assert("m2ts"@.len() == 4); }
        reveal_strlit("mp3"); assert(e != "mp3"@) by { assert("mp3"@.len() == 3); }
        reveal_strlit("wav"); assert(e != "wav"@) by { assert("wav"@.len() == 3); }
        reveal_strlit("flac"); assert(e != "flac"@) by { assert("flac"@.len() == 4); }
        reveal_strlit("aac"); assert(e != "aac"@) by { assert("aac"@.len() == 3); }
        reveal_strlit("ogg"); assert(e != "ogg"@) by { assert("ogg"@.len() == 3); }
        reveal_strlit("m4a"); assert(e != "m4a"@) by { assert("m4a"@.len() == 3); }
        reveal_strlit("wma"); assert(e != "wma"@) by { assert("wma"@.len() == 3); }
        reveal_strlit("opus"); assert(e != "opus"@) by { assert("opus"@.len() == 4); }
        reveal_strlit("pdf"); assert(e != "pdf"@) by { assert("pdf"@.len() == 3); }
        reveal_strlit("doc"); assert(e != "doc"@) by { assert("doc"@.len() == 3); }
        reveal_strlit("docx"); assert(e != "docx"@) by { assert("docx"@.len() == 4); }
        reveal_strlit("xls"); assert(e != "xls"@) by { assert("xls"@.len() == 3); }
        reveal_strlit("xlsx"); assert(e != "xlsx"@) by { assert("xlsx"@.len() == 4); }
        reveal_strlit("ppt"); assert(e != "ppt"@) by { assert("ppt"@.len() == 3); }
        reveal_strlit("pptx"); assert(e != "pptx"@) by { assert("pptx"@.len() == 4); }
        reveal_strlit("txt"); assert(e != "txt"@) by { assert("txt"@.len() == 3); }
        reveal_strlit("epub"); assert(e != "epub"@) by { assert("epub"@.len() == 4); }
        reveal_strlit("md"); assert(e != "md"@) by { assert("md"@[0] == 'm'); }
        reveal_strlit("png"); assert(e != "png"@) by { assert("png"@.len() == 3); }
        reveal_strlit("jpg"); assert(e != "jpg"@) by { assert("jpg"@.len() == 3); }
        reveal_strlit("jpeg"); assert(e != "jpeg"@) by { assert("jpeg"@.len() == 4); }
        reveal_strlit("gif"); assert(e != "gif"@) by { assert("gif"@.len() == 3); }
        reveal_strlit("webp"); assert(e != "webp"@) by { assert("webp"@.len() == 4); }
        reveal_strlit("svg"); assert(e != "svg"@) by { assert("svg"@.len() == 3); }
        reveal_strlit("bmp"); assert(e != "bmp"@) by { assert("bmp"@.len() == 3); }
        reveal_strlit("ico"); assert(e != "ico"@) by { assert("ico"@.len() == 3); }
        reveal_strlit("tiff"); assert(e != "tiff"@) by { assert("tiff"@.len() == 4); }
    }
    if e == "ts"@ {
        reveal_strlit("ts");
        assert(e.len() == 2 && e[0] == 't' && e[1] == 's');
        reveal_strlit("zip"); assert(e != "zip"@) by { assert("zip"@.len() == 3); }
        reveal_strlit("rar"); assert(e != "rar"@) by { assert("rar"@.len() == 3); }
        reveal_strlit("7z"); assert(e != "7z"@) by { assert("7z"@[0] == '7'); }
        reveal_strlit("tar"); assert(e != "tar"@) by { assert("tar"@.len() == 3); }
        reveal_strlit("gz"); assert(e != "gz"@) by { assert("gz"@[0] == 'g'); }
        reveal_strlit("bz2"); assert(e != "bz2"@) by { assert("bz2"@.len() == 3); }
        reveal_strlit("xz"); assert(e != "xz"@) by { assert("xz"@[0] == 'x'); }
        reveal_strlit("iso"); assert(e != "iso"@) by { assert("iso"@.len() == 3); }
        reveal_strlit("dmg"); assert(e != "dmg"@) by { assert("dmg"@.len() == 3); }
        reveal_strlit("pkg"); assert(e != "pkg"@) by { assert("pkg"@.len() == 3); }
        reveal_strlit("tgz"); assert(e != "tgz"@) by { assert("tgz"@.len() == 3); }
        reveal_strlit("exe"); assert(e != "exe"@) by { assert("exe"@.len() == 3); }
        reveal_strlit("msi"); assert(e != "msi"@) by { assert("msi"@.len() == 3); }
        reveal_strlit("apk"); assert(e != "apk"@) by { assert("apk"@.len() == 3); }
        reveal_strlit("deb"); assert(e != "deb"@) by { assert("deb"@.len() == 3); }
        reveal_strlit("rpm"); assert(e != "rpm"@) by { assert("rpm"@.len() == 3); }
        reveal_strlit("appimage"); assert(e != "appimage"@) by { assert("appimage"@.len() == 8); }
        reveal_strlit("bat"); assert(e != "bat"@) by { assert("bat"@.len() == 3); }
        reveal_strlit("cmd"); assert(e != "cmd"@) by { assert("cmd"@.len() == 3); }
        reveal_strlit("ps1"); assert(e != "ps1"@) by { assert("ps1"@.len() == 3); }
        reveal_strlit("mp4"); assert(e != "mp4"@) by { assert("mp4"@.len() == 3); }
        reveal_strlit("mkv"); assert(e != "mkv"@) by { assert("mkv"@.len() == 3); }
        reveal_strlit("mov"); assert(e != "mov"@) by { assert("mov"@.len() == 3); }
        reveal_strlit("avi"); assert(e != "avi"@) by { assert("avi"@.len() == 3); }
        reveal_strlit("wmv"); assert(e != "wmv"@) by { assert("wmv"@.len() == 3); }
        reveal_strlit("flv"); assert(e != "flv"@) by { assert("flv"@.len() == 3); }
        reveal_strlit("webm"); assert(e != "webm"@) by { assert("webm"@.len() == 4); }
        reveal_strlit("m4v"); assert(e != "m4v"@) by { assert("m4v"@.len() == 3); }
        reveal_strlit("m2ts"); assert(e != "m2ts"@) by { assert("m2ts"@.len() == 4); }
        reveal_strlit("mp3"); assert(e != "mp3"@) by { assert("mp3"@.len() == 3); }
        reveal_strlit("wav"); assert(e != "wav"@) by { assert("wav"@.len() == 3); }
        reveal_strlit("flac"); assert(e != "flac"@) by { assert("flac"@.len() == 4); }
        reveal_strlit("aac"); assert(e != "aac"@) by { assert("aac"@.len() == 3); }
        reveal_strlit("ogg"); assert(e != "ogg"@) by { assert("ogg"@.len() == 3); }
        reveal_strlit("m4a"); assert(e != "m4a"@) by { assert("m4a"@.len() == 3); }
        reveal_strlit("wma"); assert(e != "wma"@) by { assert("wma"@.len() == 3); }
        reveal_strlit("opus"); assert(e != "opus"@) by { assert("opus"@.len() == 4); }
        reveal_strlit("pdf"); assert(e != "pdf"@) by { assert("pdf"@.len() == 3); }
        reveal_strlit("doc"); assert(e != "doc"@) by { assert("doc"@.len() == 3); }
        reveal_strlit("docx"); assert(e != "docx"@) by { assert("docx"@.len() == 4); }
        reveal_strlit("xls"); assert(e != "xls"@) by { assert("xls"@.len() == 3); }
        reveal_strlit("xlsx"); assert(e != "xlsx"@) by { assert("xlsx"@.len() == 4); }
        reveal_strlit("ppt"); assert(e != "ppt"@) by { assert("ppt"@.len() == 3); }
        reveal_strlit("pptx"); assert(e != "pptx"@) by { assert("pptx"@.len() == 4); }
        reveal_strlit("txt"); assert(e != "txt"@) by { assert("txt"@.len() == 3); }
        reveal_strlit("epub"); assert(e != "epub"@) by { assert("epub"@.len() == 4); }
        reveal_strlit("md"); assert(e != "md"@) by { assert("md"@[0] == 'm'); }
        reveal_strlit("png"); assert(e != "png"@) by { assert("png"@.len() == 3); }
        reveal_strlit("jpg"); assert(e != "jpg"@) by { assert("jpg"@.len() == 3); }
        reveal_strlit("jpeg"); assert(e != "jpeg"@) by { assert("jpeg"@.len() == 4); }
        reveal_strlit("gif"); assert(e != "gif"@) by { assert("gif"@.len() == 3); }
        reveal_strlit("webp"); assert(e != "webp"@) by { assert("webp"@.len() == 4); }
        reveal_strlit("svg"); assert(e != "svg"@) by { assert("svg"@.len() == 3); }
        reveal_strlit("bmp"); assert(e != "bmp"@) by { assert("bmp"@.len() == 3); }
        reveal_strlit("ico"); assert(e != "ico"@) by { assert("ico"@.len() == 3); }
        reveal_strlit("tiff"); assert(e != "tiff"@) by { assert("tiff"@.len() == 4); }
    }
    if e == "py"@ {
        reveal_strlit("py");
        assert(e.len() == 2 && e[0] == 'p' && e[1] == 'y');
        reveal_strlit("zip"); assert(e != "zip"@) by { assert("zip"@.len() == 3); }
        reveal_strlit("rar"); assert(e != "rar"@) by { assert("rar"@.len() == 3); }
        reveal_strlit("7z"); assert(e != "7z"@) by { assert("7z"@[0] == '7'); }
        reveal_strlit("tar"); assert(e != "tar"@) by { assert("tar"@.len() == 3); }
        reveal_strlit("gz"); assert(e != "gz"@) by { assert("gz"@[0] == 'g'); }
        reveal_strlit("bz2"); assert(e != "bz2"@) by { assert("bz2"@.len() == 3); }
        reveal_strlit("xz"); assert(e != "xz"@) by { assert("xz"@[0] == 'x'); }
        reveal_strlit("iso"); assert(e != "iso"@) by { assert("iso"@.len() == 3); }
        reveal_strlit("dmg"); assert(e != "dmg"@) by { assert("dmg"@.len() == 3); }
        reveal_strlit("pkg"); assert(e != "pkg"@) by { assert("pkg"@.len() == 3); }
        reveal_strlit("tgz"); assert(e != "tgz"@) by { assert("tgz"@.len() == 3); }
        reveal_strlit("exe"); assert(e != "exe"@) by { assert("exe"@.len() == 3); }
        reveal_strlit("msi"); assert(e != "msi"@) by { assert("msi"@.len() == 3); }
        reveal_strlit("apk"); assert(e != "apk"@) by { assert("apk"@.len() == 3); }
        reveal_strlit("deb"); assert(e != "deb"@) by { assert("deb"@.len() == 3); }
        reveal_strlit("rpm"); assert(e != "rpm"@) by { assert("rpm"@.len() == 3); }
        reveal_strlit("appimage"); assert(e != "appimage"@) by { assert("appimage"@.len() == 8); }
        reveal_strlit("bat"); assert(e != "bat"@) by { assert("bat"@.len() == 3); }
        reveal_strlit("cmd"); assert(e != "cmd"@) by { assert("cmd"@.len() == 3); }
        reveal_strlit("ps1"); assert(e != "ps1"@) by { assert("ps1"@.len() == 3); }
        reveal_strlit("mp4"); assert(e != "mp4"@) by { assert("mp4"@.len() == 3); }
        reveal_strlit("mkv"); assert(e != "mkv"@) by { assert("mkv"@.len() == 3); }
        reveal_strlit("mov"); assert(e != "mov"@) by { assert("mov"@.len() == 3); }
        reveal_strlit("avi"); assert(e != "avi"@) by { assert("avi"@.len() == 3); }
        reveal_strlit("wmv"); assert(e != "wmv"@) by { assert("wmv"@.len() == 3); }
        reveal_strlit("flv"); assert(e != "flv"@) by { assert("flv"@.len() == 3); }
        reveal_strlit("webm"); assert(e != "webm"@) by { assert("webm"@.len() == 4); }
        reveal_strlit("m4v"); assert(e != "m4v"@) by { assert("m4v"@.len() == 3); }
        reveal_strlit("m2ts"); assert(e != "m2ts"@) by { assert("m2ts"@.len() == 4); }
        reveal_strlit("mp3"); assert(e != "mp3"@) by { assert("mp3"@.len() == 3); }
        reveal_strlit("wav"); assert(e != "wav"@) by { assert("wav"@.len() == 3); }
        reveal_strlit("flac"); assert(e != "flac"@) by { assert("flac"@.len() == 4); }
        reveal_strlit("aac"); assert(e != "aac"@) by { assert("aac"@.len() == 3); }
        reveal_strlit("ogg"); assert(e != "ogg"@) by { assert("ogg"@.len() == 3); }
        reveal_strlit("m4a"); assert(e != "m4a"@) by { assert("m4a"@.len() == 3); }
        reveal_strlit("wma"); assert(e != "wma"@) by { assert("wma"@.len() == 3); }
        reveal_strlit("opus"); assert(e != "opus"@) by { assert("opus"@.len() == 4); }
        reveal_strlit("pdf"); assert(e != "pdf"@) by { assert("pdf"@.len() == 3); }
        reveal_strlit("doc"); assert(e != "doc"@) by { assert("doc"@.len() == 3); }
        reveal_strlit("docx"); assert(e != "docx"@) by { assert("docx"@.len() == 4); }
        reveal_strlit("xls"); assert(e != "xls"@) by { assert("xls"@.len() == 3); }
        reveal_strlit("xlsx"); assert(e != "xlsx"@) by { assert("xlsx"@.len() == 4); }
        reveal_strlit("ppt"); assert(e != "ppt"@) by { assert("ppt"@.len() == 3); }
        reveal_strlit("pptx"); assert(e != "pptx"@) by { assert("pptx"@.len() == 4); }
        reveal_strlit("txt"); assert(e != "txt"@) by { assert("txt"@.len() == 3); }
        reveal_strlit("epub"); assert(e != "epub"@) by { assert("epub"@.len() == 4); }
        reveal_strlit("md"); assert(e != "md"@) by { assert("md"@[0] == 'm'); }
        reveal_strlit("png"); assert(e != "png"@) by { assert("png"@.len() == 3); }
        reveal_strlit("jpg"); assert(e != "jpg"@) by { assert("jpg"@.len() == 3); }
        reveal_strlit("jpeg"); assert(e != "jpeg"@) by { assert("jpeg"@.len() == 4); }
        reveal_strlit("gif"); assert(e != "gif"@) by { assert("gif"@.len() == 3); }
        reveal_strlit("webp"); assert(e != "webp"@) by { assert("webp"@.len() == 4); }
        reveal_strlit("svg"); assert(e != "svg"@) by { assert("svg"@.len() == 3); }
        reveal_strlit("bmp"); assert(e != "bmp"@) by { assert("bmp"@.len() == 3); }
        reveal_strlit("ico"); assert(e != "ico"@) by { assert("ico"@.len() == 3); }
        reveal_strlit("tiff"); assert(e != "tiff"@) by { assert("tiff"@.len() == 4); }
    }
    if e == "c"@ {
        reveal_strlit("c");
        assert(e.len() == 1 && e[0] == 'c');
        reveal_strlit("zip"); assert(e != "zip"@) by { assert("zip"@.len() == 3); }
        reveal_strlit("rar"); assert(e != "rar"@) by { assert("rar"@.len() == 3); }
        reveal_strlit("7z"); assert(e != "7z"@) by { assert("7z"@.len() == 2); }
        reveal_strlit("tar"); assert(e != "tar"@) by { assert("tar"@.len() == 3); }
        reveal_strlit("gz"); assert(e != "gz"@) by { assert("gz"@.len() == 2); }
        reveal_strlit("bz2"); assert(e != "bz2"@) by { assert("bz2"@.len() == 3); }
        reveal_strlit("xz"); assert(e != "xz"@) by { assert("xz"@.len() == 2); }
        reveal_strlit("iso"); assert(e != "iso"@) by { assert("iso"@.len() == 3); }
        reveal_strlit("dmg"); assert(e != "dmg"@) by { assert("dmg"@.len() == 3); }
        reveal_strlit("pkg"); assert(e != "pkg"@) by { assert("pkg"@.len() == 3); }
        reveal_strlit("tgz"); assert(e != "tgz"@) by { assert("tgz"@.len() == 3); }
        reveal_strlit("exe"); assert(e != "exe"@) by { assert("exe"@.len() == 3); }
        reveal_strlit("msi"); assert(e != "msi"@) by { assert("msi"@.len() == 3); }
        reveal_strlit("apk"); assert(e != "apk"@) by { assert("apk"@.len() == 3); }
        reveal_strlit("deb"); assert(e != "deb"@) by { assert("deb"@.len() == 3); }
        reveal_strlit("rpm"); assert(e != "rpm"@) by { assert("rpm"@.len() == 3); }
        reveal_strlit("appimage"); assert(e != "appimage"@) by { assert("appimage"@.len() == 8); }
        reveal_strlit("bat"); assert(e != "bat"@) by { assert("bat"@.len() == 3); }
        reveal_strlit("cmd"); assert(e != "cmd"@) by { assert("cmd"@.len() == 3); }
        reveal_strlit("ps1"); assert(e != "ps1"@) by { assert("ps1"@.len() == 3); }
        reveal_strlit("mp4"); assert(e != "mp4"@) by { assert("mp4"@.len() == 3); }
        reveal_strlit("mkv"); assert(e != "mkv"@) by { assert("mkv"@.len() == 3); }
        reveal_strlit("mov"); assert(e != "mov"@) by { assert("mov"@.len() == 3); }
        reveal_strlit("avi"); assert(e != "avi"@) by { assert("avi"@.len() == 3); }
        reveal_strlit("wmv"); assert(e != "wmv"@) by { assert("wmv"@.len() == 3); }
        reveal_strlit("flv"); assert(e != "flv"@) by { assert("flv"@.len() == 3); }
        reveal_strlit("webm"); assert(e != "webm"@) by { assert("webm"@.len() == 4); }
        reveal_strlit("m4v"); assert(e != "m4v"@) by { assert("m4v"@.len() == 3); }
        reveal_strlit("m2ts"); assert(e != "m2ts"@) by { assert("m2ts"@.len() == 4); }
        reveal_strlit("mp3"); assert(e != "mp3"@) by { assert("mp3"@.len() == 3); }
        reveal_strlit("wav"); assert(e != "wav"@) by { assert("wav"@.len() == 3); }
        reveal_strlit("flac"); assert(e != "flac"@) by { assert("flac"@.len() == 4); }
        reveal_strlit("aac"); assert(e != "aac"@) by { assert("aac"@.len() == 3); }
        reveal_strlit("ogg"); assert(e != "ogg"@) by { assert("ogg"@.len() == 3); }
        reveal_strlit("m4a"); assert(e != "m4a"@) by { assert("m4a"@.len() == 3); }
        reveal_strlit("wma"); assert(e != "wma"@) by { assert("wma"@.len() == 3); }
        reveal_strlit("opus"); assert(e != "opus"@) by { assert("opus"@.len() == 4); }
        reveal_strlit("pdf"); assert(e != "pdf"@) by { assert("pdf"@.len() == 3); }
        reveal_strlit("doc"); assert(e != "doc"@) by { assert("doc"@.len() == 3); }
        reveal_strlit("docx"); assert(e != "docx"@) by { assert("docx"@.len() == 4); }
        reveal_strlit("xls"); assert(e != "xls"@) by { assert("xls"@.len() == 3); }
        reveal_strlit("xlsx"); assert(e != "xlsx"@) by { assert("xlsx"@.len() == 4); }
        reveal_strlit("ppt"); assert(e != "ppt"@) by { assert("ppt"@.len() == 3); }
        reveal_strlit("pptx"); assert(e != "pptx"@) by { assert("pptx"@.len() == 4); }
        reveal_strlit("txt"); assert(e != "txt"@) by { assert("txt"@.len() == 3); }
        reveal_strlit("epub"); assert(e != "epub"@) by { assert("epub"@.len() == 4); }
        reveal_strlit("md"); assert(e != "md"@) by { assert("md"@.len() == 2); }
        reveal_strlit("png"); assert(e != "png"@) by { assert("png"@.len() == 3); }
        reveal_strlit("jpg"); assert(e != "jpg"@) by { assert("jpg"@.len() == 3); }
        reveal_strlit("jpeg"); assert(e != "jpeg"@) by { assert("jpeg"@.len() == 4); }
        reveal_strlit("gif"); assert(e != "gif"@) by { assert("gif"@.len() == 3); }
        reveal_strlit("webp"); assert(e != "webp"@) by { assert("webp"@.len() == 4); }
        reveal_strlit("svg"); assert(e != "svg"@) by { assert("svg"@.len() == 3); }
        reveal_strlit("bmp"); assert(e != "bmp"@) by { assert("bmp"@.len() == 3); }
        reveal_strlit("ico"); assert(e != "ico"@) by { assert("ico"@.len() == 3); }
        reveal_strlit("tiff"); assert(e != "tiff"@) by { assert("tiff"@.len() == 4); }
    }
    if e == "cpp"@ {
        reveal_strlit("cpp");
        assert(e.len() == 3 && e[0] == 'c' && e[1] == 'p' && e[2] == 'p');
        reveal_strlit("zip"); assert(e != "zip"@) by { assert("zip"@[0] == 'z'); }
        reveal_strlit("rar"); assert(e != "rar"@) by { assert("rar"@[0] == 'r'); }
        reveal_strlit("7z"); assert(e != "7z"@) by { assert("7z"@.len() == 2); }
        reveal_strlit("tar"); assert(e != "tar"@) by { assert("tar"@[0] == 't'); }
        reveal_strlit("gz"); assert(e != "gz"@) by { assert("gz"@.len() == 2); }
        reveal_strlit("bz2"); assert(e != "bz2"@) by { assert("bz2"@[0] == 'b'); }
        reveal_strlit("xz"); assert(e != "xz"@) by { assert("xz"@.len() == 2); }
        reveal_strlit("iso"); assert(e != "iso"@) by { assert("iso"@[0] == 'i'); }
        reveal_strlit("dmg"); assert(e != "dmg"@) by { assert("dmg"@[0] == 'd'); }
        reveal_strlit("pkg"); assert(e != "pkg"@) by { assert("pkg"@[0] == 'p'); }
        reveal_strlit("tgz"); assert(e != "tgz"@) by { assert("tgz"@[0] == 't'); }
        reveal_strlit("exe"); assert(e != "exe"@) by { assert("exe"@[0] == 'e'); }
        reveal_strlit("msi"); assert(e != "msi"@) by { assert("msi"@[0] == 'm'); }
        reveal_strlit("apk"); assert(e != "apk"@) by { assert("apk"@[0] == 'a'); }
        reveal_strlit("deb"); assert(e != "deb"@) by { assert("deb"@[0] == 'd'); }
        reveal_strlit("rpm"); assert(e != "rpm"@) by { assert("rpm"@[0] == 'r'); }
        reveal_strlit("appimage"); assert(e != "appimage"@) by { assert("appimage"@.len() == 8); }
        reveal_strlit("bat"); assert(e != "bat"@) by { assert("bat"@[0] == 'b'); }
        reveal_strlit("cmd"); assert(e != "cmd"@) by { assert("cmd"@[1] == 'm'); }
        reveal_strlit("ps1"); assert(e != "ps1"@) by { assert("ps1"@[0] == 'p'); }
        reveal_strlit("mp4"); assert(e != "mp4"@) by { assert("mp4"@[0] == 'm'); }
        reveal_strlit("mkv"); assert(e != "mkv"@) by { assert("mkv"@[0] == 'm'); }
        reveal_strlit("mov"); assert(e != "mov"@) by { assert("mov"@[0] == 'm'); }
        reveal_strlit("avi"); assert(e != "avi"@) by { assert("avi"@[0] == 'a'); }
        reveal_strlit("wmv"); assert(e != "wmv"@) by { assert("wmv"@[0] == 'w'); }
        reveal_strlit("flv"); assert(e != "flv"@) by { assert("flv"@[0] == 'f'); }
        reveal_strlit("webm"); assert(e != "webm"@) by { assert("webm"@.len() == 4); }
        reveal_strlit("m4v"); assert(e != "m4v"@) by { assert("m4v"@[0] == 'm'); }
        reveal_strlit("m2ts"); assert(e != "m2ts"@) by { assert("m2ts"@.len() == 4); }
        reveal_strlit("mp3"); assert(e != "mp3"@) by { assert("mp3"@[0] == 'm'); }
        reveal_strlit("wav"); assert(e != "wav"@) by { assert("wav"@[0] == 'w'); }
        reveal_strlit("flac"); assert(e != "flac"@) by { assert("flac"@.len() == 4); }
        reveal_strlit("aac"); assert(e != "aac"@) by { assert("aac"@[0] == 'a'); }
        reveal_strlit("ogg"); assert(e != "ogg"@) by { assert("ogg"@[0] == 'o'); }
        reveal_strlit("m4a"); assert(e != "m4a"@) by { assert("m4a"@[0] == 'm'); }
        reveal_strlit("wma"); assert(e != "wma"@) by { assert("wma"@[0] == 'w'); }
        reveal_strlit("opus"); assert(e != "opus"@) by { assert("opus"@.len() == 4); }
        reveal_strlit("pdf"); assert(e != "pdf"@) by { assert("pdf"@[0] == 'p'); }
        reveal_strlit("doc"); assert(e != "doc"@) by { assert("doc"@[0] == 'd'); }
        reveal_strlit("docx"); assert(e != "docx"@) by { assert("docx"@.len() == 4); }
        reveal_strlit("xls"); assert(e != "xls"@) by { assert("xls"@[0] == 'x'); }
        reveal_strlit("xlsx"); assert(e != "xlsx"@) by { assert("xlsx"@.len() == 4); }
        reveal_strlit("ppt"); assert(e != "ppt"@) by { assert("ppt"@[0] == 'p'); }
        reveal_strlit("pptx"); assert(e != "pptx"@) by { assert("pptx"@.len() == 4); }
        reveal_strlit("txt"); assert(e != "txt"@) by { assert("txt"@[0] == 't'); }
        reveal_strlit("epub"); assert(e != "epub"@) by { assert("epub"@.len() == 4); }
        reveal_strlit("md"); assert(e != "md"@) by { assert("md"@.len() == 2); }
        reveal_strlit("png"); assert(e != "png"@) by { assert("png"@[0] == 'p'); }
        reveal_strlit("jpg"); assert(e != "jpg"@) by { assert("jpg"@[0] == 'j'); }
        reveal_strlit("jpeg"); assert(e != "jpeg"@) by { assert("jpeg"@.len() == 4); }
        reveal_strlit("gif"); assert(e != "gif"@) by { assert("gif"@[0] == 'g'); }
        reveal_strlit("webp"); assert(e != "webp"@) by { assert("webp"@.len() == 4); }
        reveal_strlit("svg"); assert(e != "svg"@) by { assert("svg"@[0] == 's'); }
        reveal_strlit("bmp"); assert(e != "bmp"@) by { assert("bmp"@[0] == 'b'); }
        reveal_strlit("ico"); assert(e != "ico"@) by { assert("ico"@[0] == 'i'); }
        reveal_strlit("tiff"); assert(e != "tiff"@) by { assert("tiff"@.len() == 4); }
    }
    if e == "h"@ {
        reveal_strlit("h");
        assert(e.len() == 1 && e[0] == 'h');
        reveal_strlit("zip"); assert(e != "zip"@) by { assert("zip"@.len() == 3); }
        reveal_strlit("rar"); assert(e != "rar"@) by { assert("rar"@.len() == 3); }
        reveal_strlit("7z"); assert(e != "7z"@) by { assert("7z"@.len() == 2); }
        reveal_strlit("tar"); assert(e != "tar"@) by { assert("tar"@.len() == 3); }
        reveal_strlit("gz"); assert(e != "gz"@) by { assert("gz"@.len() == 2); }
        reveal_strlit("bz2"); assert(e != "bz2"@) by { assert("bz2"@.len() == 3); }
        reveal_strlit("xz"); assert(e != "xz"@) by { assert("xz"@.len() == 2); }
        reveal_strlit("iso"); assert(e != "iso"@) by { assert("iso"@.len() == 3); }
        reveal_strlit("dmg"); assert(e != "dmg"@) by { assert("dmg"@.len() == 3); }
        reveal_strlit("pkg"); assert(e != "pkg"@) by { assert("pkg"@.len() == 3); }
        reveal_strlit("tgz"); assert(e != "tgz"@) by { assert("tgz"@.len() == 3); }
        reveal_strlit("exe"); assert(e != "exe"@) by { assert("exe"@.len() == 3); }
        reveal_strlit("msi"); assert(e != "msi"@) by { assert("msi"@.len() == 3); }
        reveal_strlit("apk"); assert(e != "apk"@) by { assert("apk"@.len() == 3); }
        reveal_strlit("deb"); assert(e != "deb"@) by { assert("deb"@.len() == 3); }
        reveal_strlit("rpm"); assert(e != "rpm"@) by { assert("rpm"@.len() == 3); }
        reveal_strlit("appimage"); assert(e != "appimage"@) by { assert("appimage"@.len() == 8); }
        reveal_strlit("bat"); assert(e != "bat"@) by { assert("bat"@.len() == 3); }
        reveal_strlit("cmd"); assert(e != "cmd"@) by { assert("cmd"@.len() == 3); }
        reveal_strlit("ps1"); assert(e != "ps1"@) by { assert("ps1"@.len() == 3); }
        reveal_strlit("mp4"); assert(e != "mp4"@) by { assert("mp4"@.len() == 3); }
        reveal_strlit("mkv"); assert(e != "mkv"@) by { assert("mkv"@.len() == 3); }
        reveal_strlit("mov"); assert(e != "mov"@) by { assert("mov"@.len() == 3); }
        reveal_strlit("avi"); assert(e != "avi"@) by { assert("avi"@.len() == 3); }
        reveal_strlit("wmv"); assert(e != "wmv"@) by { assert("wmv"@.len() == 3); }
        reveal_strlit("flv"); assert(e != "flv"@) by { assert("flv"@.len() == 3); }
        reveal_strlit("webm"); assert(e != "webm"@) by { assert("webm"@.len() == 4); }
        reveal_strlit("m4v"); assert(e != "m4v"@) by { assert("m4v"@.len() == 3); }
        reveal_strlit("m2ts"); assert(e != "m2ts"@) by { assert("m2ts"@.len() == 4); }
        reveal_strlit("mp3"); assert(e != "mp3"@) by { assert("mp3"@.len() == 3); }
        reveal_strlit("wav"); assert(e != "wav"@) by { assert("wav"@.len() == 3); }
        reveal_strlit("flac"); assert(e != "flac"@) by { assert("flac"@.len() == 4); }
        reveal_strlit("aac"); assert(e != "aac"@) by { assert("aac"@.len() == 3); }
        reveal_strlit("ogg"); assert(e != "ogg"@) by { assert("ogg"@.len() == 3); }
        reveal_strlit("m4a"); assert(e != "m4a"@) by { assert("m4a"@.len() == 3); }
        reveal_strlit("wma"); assert(e != "wma"@) by { assert("wma"@.len() == 3); }
        reveal_strlit("opus"); assert(e != "opus"@) by { assert("opus"@.len() == 4); }
        reveal_strlit("pdf"); assert(e != "pdf"@) by { assert("pdf"@.len() == 3); }
        reveal_strlit("doc"); assert(e != "doc"@) by { assert("doc"@.len() == 3); }
        reveal_strlit("docx"); assert(e != "docx"@) by { assert("docx"@.len() == 4); }
        reveal_strlit("xls"); assert(e != "xls"@) by { assert("xls"@.len() == 3); }
        reveal_strlit("xlsx"); assert(e != "xlsx"@) by { assert("xlsx"@.len() == 4); }
        reveal_strlit("ppt"); assert(e != "ppt"@) by { assert("ppt"@.len() == 3); }
        reveal_strlit("pptx"); assert(e != "pptx"@) by { assert("pptx"@.len() == 4); }
        reveal_strlit("txt"); assert(e != "txt"@) by { assert("txt"@.len() == 3); }
        reveal_strlit("epub"); assert(e != "epub"@) by { assert("epub"@.len() == 4); }
        reveal_strlit("md"); assert(e != "md"@) by { assert("md"@.len() == 2); }
        reveal_strlit("png"); assert(e != "png"@) by { assert("png"@.len() == 3); }
        reveal_strlit("jpg"); assert(e != "jpg"@) by { assert("jpg"@.len() == 3); }
        reveal_strlit("jpeg"); assert(e != "jpeg"@) by { assert("jpeg"@.len() == 4); }
        reveal_strlit("gif"); assert(e != "gif"@) by { assert("gif"@.len() == 3); }
        reveal_strlit("webp"); assert(e != "webp"@) by { assert("webp"@.len() == 4); }
        reveal_strlit("svg"); assert(e != "svg"@) by { assert("svg"@.len() == 3); }
        reveal_strlit("bmp"); assert(e != "bmp"@) by { assert("bmp"@.len() == 3); }
        reveal_strlit("ico"); assert(e != "ico"@) by { assert("ico"@.len() == 3); }
        reveal_strlit("tiff"); assert(e != "tiff"@) by { assert("tiff"@.len() == 4); }
    }
    if e == "html"@ {
        reveal_strlit("html");
        assert(e.len() == 4 && e[0] == 'h' && e[1] == 't' && e[2] == 'm' && e[3] == 'l');
        reveal_strlit("zip"); assert(e != "zip"@) by { assert("zip"@.len() == 3); }
        reveal_strlit("rar"); assert(e != "rar"@) by { assert("rar"@.len() == 3); }
        reveal_strlit("7z"); assert(e != "7z"@) by { assert("7z"@.len() == 2); }
        reveal_strlit("tar"); assert(e != "tar"@) by { assert("tar"@.len() == 3); }
        reveal_strlit("gz"); assert(e != "gz"@) by { assert("gz"@.len() == 2); }
        reveal_strlit("bz2"); assert(e != "bz2"@) by { assert("bz2"@.len() == 3); }
        reveal_strlit("xz"); assert(e != "xz"@) by { assert("xz"@.len() == 2); }
        reveal_strlit("iso"); assert(e != "iso"@) by { assert("iso"@.len() == 3); }
        reveal_strlit("dmg"); assert(e != "dmg"@) by { assert("dmg"@.len() == 3); }
        reveal_strlit("pkg"); assert(e != "pkg"@) by { assert("pkg"@.len() == 3); }
        reveal_strlit("tgz"); assert(e != "tgz"@) by { assert("tgz"@.len() == 3); }
        reveal_strlit("exe"); assert(e != "exe"@) by { assert("exe"@.len() == 3); }
        reveal_strlit("msi"); assert(e != "msi"@) by { assert("msi"@.len() == 3); }
        reveal_strlit("apk"); assert(e != "apk"@) by { assert("apk"@.len() == 3); }
        reveal_strlit("deb"); assert(e != "deb"@) by { assert("deb"@.len() == 3); }
        reveal_strlit("rpm"); assert(e != "rpm"@) by { assert("rpm"@.len() == 3); }
        reveal_strlit("appimage"); assert(e != "appimage"@) by { assert("appimage"@.len() == 8); }
        reveal_strlit("bat"); assert(e != "bat"@) by { assert("bat"@.len() == 3); }
        reveal_strlit("cmd"); assert(e != "cmd"@) by { assert("cmd"@.len() == 3); }
        reveal_strlit("ps1"); assert(e != "ps1"@) by { assert("ps1"@.len() == 3); }
        reveal_strlit("mp4"); assert(e != "mp4"@) by { assert("mp4"@.len() == 3); }
        reveal_strlit("mkv"); assert(e != "mkv"@) by { assert("mkv"@.len() == 3); }
        reveal_strlit("mov"); assert(e != "mov"@) by { assert("mov"@.len() == 3); }
        reveal_strlit("avi"); assert(e != "avi"@) by { assert("avi"@.len() == 3); }
        reveal_strlit("wmv"); assert(e != "wmv"@) by { assert("wmv"@.len() == 3); }
        reveal_strlit("flv"); assert(e != "flv"@) by { assert("flv"@.len() == 3); }
        reveal_strlit("webm"); assert(e != "webm"@) by { assert("webm"@[0] == 'w'); }
        reveal_strlit("m4v"); assert(e != "m4v"@) by { assert("m4v"@.len() == 3); }
        reveal_strlit("m2ts"); assert(e != "m2ts"@) by { assert("m2ts"@[0] == 'm'); }
        reveal_strlit("mp3"); assert(e != "mp3"@) by { assert("mp3"@.len() == 3); }
        reveal_strlit("wav"); assert(e != "wav"@) by { assert("wav"@.len() == 3); }
        reveal_strlit("flac"); assert(e != "flac"@) by { assert("flac"@[0] == 'f'); }
        reveal_strlit("aac"); assert(e != "aac"@) by { assert("aac"@.len() == 3); }
        reveal_strlit("ogg"); assert(e != "ogg"@) by { assert("ogg"@.len() == 3); }
        reveal_strlit("m4a"); assert(e != "m4a"@) by { assert("m4a"@.len() == 3); }
        reveal_strlit("wma"); assert(e != "wma"@) by { assert("wma"@.len() == 3); }
        reveal_strlit("opus"); assert(e != "opus"@) by { assert("opus"@[0] == 'o'); }
        reveal_strlit("pdf"); assert(e != "pdf"@) by { assert("pdf"@.len() == 3); }
        reveal_strlit("doc"); assert(e != "doc"@) by { assert("doc"@.len() == 3); }
        reveal_strlit("docx"); assert(e != "docx"@) by { assert("docx"@[0] == 'd'); }
        reveal_strlit("xls"); assert(e != "xls"@) by { assert("xls"@.len() == 3); }
        reveal_strlit("xlsx"); assert(e != "xlsx"@) by { assert("xlsx"@[0] == 'x'); }
        reveal_strlit("ppt"); assert(e != "ppt"@) by { assert("ppt"@.len() == 3); }
        reveal_strlit("pptx"); assert(e != "pptx"@) by { assert("pptx"@[0] == 'p'); }
        reveal_strlit("txt"); assert(e != "txt"@) by { assert("txt"@.len() == 3); }
        reveal_strlit("epub"); assert(e != "epub"@) by { assert("epub"@[0] == 'e'); }
        reveal_strlit("md"); assert(e != "md"@) by { assert("md"@.len() == 2); }
        reveal_strlit("png"); assert(e != "png"@) by { assert("png"@.len() == 3); }
        reveal_strlit("jpg"); assert(e != "jpg"@) by { assert("jpg"@.len() == 3); }
        reveal_strlit("jpeg"); assert(e != "jpeg"@) by { assert("jpeg"@[0] == 'j'); }
        reveal_strlit("gif"); assert(e != "gif"@) by { assert("gif"@.len() == 3); }
        reveal_strlit("webp"); assert(e != "webp"@) by { assert("webp"@[0] == 'w'); }
        reveal_strlit("svg"); assert(e != "svg"@) by { assert("svg"@.len() == 3); }
        reveal_strlit("bmp"); assert(e != "bmp"@) by { assert("bmp"@.len() == 3); }
        reveal_strlit("ico"); assert(e != "ico"@) by { assert("ico"@.len() == 3); }
        reveal_strlit("tiff"); assert(e != "tiff"@) by { assert("tiff"@[0] == 't'); }
    }
    if e == "css"@ {
        reveal_strlit("css");
        assert(e.len() == 3 && e[0] == 'c' && e[1] == 's' && e[2] == 's');
        reveal_strlit("zip"); assert(e != "zip"@) by { assert("zip"@[0] == 'z'); }
        reveal_strlit("rar"); assert(e != "rar"@) by { assert("rar"@[0] == 'r'); }
        reveal_strlit("7z"); assert(e != "7z"@) by { assert("7z"@.len() == 2); }
        reveal_strlit("tar"); assert(e != "tar"@) by { assert("tar"@[0] == 't'); }
        reveal_strlit("gz"); assert(e != "gz"@) by { assert("gz"@.len() == 2); }
        reveal_strlit("bz2"); assert(e != "bz2"@) by { assert("bz2"@[0] == 'b'); }
        reveal_strlit("xz"); assert(e != "xz"@) by { assert("xz"@.len() == 2); }
        reveal_strlit("iso"); assert(e != "iso"@) by { assert("iso"@[0] == 'i'); }
        reveal_strlit("dmg"); assert(e != "dmg"@) by { assert("dmg"@[0] == 'd'); }
        reveal_strlit("pkg"); assert(e != "pkg"@) by { assert("pkg"@[0] == 'p'); }
        reveal_strlit("tgz"); assert(e != "tgz"@) by { assert("tgz"@[0] == 't'); }
        reveal_strlit("exe"); assert(e != "exe"@) by { assert("exe"@[0] == 'e'); }
        reveal_strlit("msi"); assert(e != "msi"@) by { assert("msi"@[0] == 'm'); }
        reveal_strlit("apk"); assert(e != "apk"@) by { assert("apk"@[0] == 'a'); }
        reveal_strlit("deb"); assert(e != "deb"@) by { assert("deb"@[0] == 'd'); }
        reveal_strlit("rpm"); assert(e != "rpm"@) by { assert("rpm"@[0] == 'r'); }
        reveal_strlit("appimage"); assert(e != "appimage"@) by { assert("appimage"@.len() == 8); }
        reveal_strlit("bat"); assert(e != "bat"@) by { assert("bat"@[0] == 'b'); }
        reveal_strlit("cmd"); assert(e != "cmd"@) by { assert("cmd"@[1] == 'm'); }
        reveal_strlit("ps1"); assert(e != "ps1"@) by { assert("ps1"@[0] == 'p'); }
        reveal_strlit("mp4"); assert(e != "mp4"@) by { assert("mp4"@[0] == 'm'); }
        reveal_strlit("mkv"); assert(e != "mkv"@) by { assert("mkv"@[0] == 'm'); }
        reveal_strlit("mov"); assert(e != "mov"@) by { assert("mov"@[0] == 'm'); }
        reveal_strlit("avi"); assert(e != "avi"@) by { assert("avi"@[0] == 'a'); }
        reveal_strlit("wmv"); assert(e != "wmv"@) by { assert("wmv"@[0] == 'w'); }
        reveal_strlit("flv"); assert(e != "flv"@) by { assert("flv"@[0] == 'f'); }
        reveal_strlit("webm"); assert(e != "webm"@) by { assert("webm"@.len() == 4); }
        reveal_strlit("m4v"); assert(e != "m4v"@) by { assert("m4v"@[0] == 'm'); }
        reveal_strlit("m2ts"); assert(e != "m2ts"@) by { assert("m2ts"@.len() == 4); }
        reveal_strlit("mp3"); assert(e != "mp3"@) by { assert("mp3"@[0] == 'm'); }
        reveal_strlit("wav"); assert(e != "wav"@) by { assert("wav"@[0] == 'w'); }
        reveal_strlit("flac"); assert(e != "flac"@) by { assert("flac"@.len() == 4); }
        reveal_strlit("aac"); assert(e != "aac"@) by { assert("aac"@[0] == 'a'); }
        reveal_strlit("ogg"); assert(e != "ogg"@) by { assert("ogg"@[0] == 'o'); }
        reveal_strlit("m4a"); assert(e != "m4a"@) by { assert("m4a"@[0] == 'm'); }
        reveal_strlit("wma"); assert(e != "wma"@) by { assert("wma"@[0] == 'w'); }
        reveal_strlit("opus"); assert(e != "opus"@) by { assert("opus"@.len() == 4); }
        reveal_strlit("pdf"); assert(e != "pdf"@) by { assert("pdf"@[0] == 'p'); }
        reveal_strlit("doc"); assert(e != "doc"@) by { assert("doc"@[0] == 'd'); }
        reveal_strlit("docx"); assert(e != "docx"@) by { assert("docx"@.len() == 4); }
        reveal_strlit("xls"); assert(e != "xls"@) by { assert("xls"@[0] == 'x'); }
        reveal_strlit("xlsx"); assert(e != "xlsx"@) by { assert("xlsx"@.len() == 4); }
        reveal_strlit("ppt"); assert(e != "ppt"@) by { assert("ppt"@[0] == 'p'); }
        reveal_strlit("pptx"); assert(e != "pptx"@) by { assert("pptx"@.len() == 4); }
        reveal_strlit("txt"); assert(e != "txt"@) by { assert("txt"@[0] == 't'); }
        reveal_strlit("epub"); assert(e != "epub"@) by { assert("epub"@.len() == 4); }
        reveal_strlit("md"); assert(e != "md"@) by { assert("md"@.len() == 2); }
        reveal_strlit("png"); assert(e != "png"@) by { assert("png"@[0] == 'p'); }
        reveal_strlit("jpg"); assert(e != "jpg"@) by { assert("jpg"@[0] == 'j'); }
        reveal_strlit("jpeg"); assert(e != "jpeg"@) by { assert("jpeg"@.len() == 4); }
        reveal_strlit("gif"); assert(e != "gif"@) by { assert("gif"@[0] == 'g'); }
        reveal_strlit("webp"); assert(e != "webp"@) by { assert("webp"@.len() == 4); }
        reveal_strlit("svg"); assert(e != "svg"@) by { assert("svg"@[0] == 's'); }
        reveal_strlit("bmp"); assert(e != "bmp"@) by { assert("bmp"@[0] == 'b'); }
        reveal_strlit("ico"); assert(e != "ico"@) by { assert("ico"@[0] == 'i'); }
        reveal_strlit("tiff"); assert(e != "tiff"@) by { assert("tiff"@.len() == 4); }
    }
    if e == "json"@ {
        reveal_strlit("json");
        assert(e.len() == 4 && e[0] == 'j' && e[1] == 's' && e[2] == 'o' && e[3] == 'n');
        reveal_strlit("zip"); assert(e != "zip"@) by { assert("zip"@.len() == 3); }
        reveal_strlit("rar"); assert(e != "rar"@) by { assert("rar"@.len() == 3); }
        reveal_strlit("7z"); assert(e != "7z"@) by { assert("7z"@.len() == 2); }
        reveal_strlit("tar"); assert(e != "tar"@) by { assert("tar"@.len() == 3); }
        reveal_strlit("gz"); assert(e != "gz"@) by { assert("gz"@.len() == 2); }
        reveal_strlit("bz2"); assert(e != "bz2"@) by { assert("bz2"@.len() == 3); }
        reveal_strlit("xz"); assert(e != "xz"@) by { assert("xz"@.len() == 2); }
        reveal_strlit("iso"); assert(e != "iso"@) by { assert("iso"@.len() == 3); }
        reveal_strlit("dmg"); assert(e != "dmg"@) by { assert("dmg"@.len() == 3); }
        reveal_strlit("pkg"); assert(e != "pkg"@) by { assert("pkg"@.len() == 3); }
        reveal_strlit("tgz"); assert(e != "tgz"@) by { assert("tgz"@.len() == 3); }
        reveal_strlit("exe"); assert(e != "exe"@) by { assert("exe"@.len() == 3); }
        reveal_strlit("msi"); assert(e != "msi"@) by { assert("msi"@.len() == 3); }
        reveal_strlit("apk"); assert(e != "apk"@) by { assert("apk"@.len() == 3); }
        reveal_strlit("deb"); assert(e != "deb"@) by { assert("deb"@.len() == 3); }
        reveal_strlit("rpm"); assert(e != "rpm"@) by { assert("rpm"@.len() == 3); }
        reveal_strlit("appimage"); assert(e != "appimage"@) by { assert("appimage"@.len() == 8); }
        reveal_strlit("bat"); assert(e != "bat"@) by { assert("bat"@.len() == 3); }
        reveal_strlit("cmd"); assert(e != "cmd"@) by { assert("cmd"@.len() == 3); }
        reveal_strlit("ps1"); assert(e != "ps1"@) by { assert("ps1"@.len() == 3); }
        reveal_strlit("mp4"); assert(e != "mp4"@) by { assert("mp4"@.len() == 3); }
        reveal_strlit("mkv"); assert(e != "mkv"@) by { assert("mkv"@.len() == 3); }
        reveal_strlit("mov"); assert(e != "mov"@) by { assert("mov"@.len() == 3); }
        reveal_strlit("avi"); assert(e != "avi"@) by { assert("avi"@.len() == 3); }
        reveal_strlit("wmv"); assert(e != "wmv"@) by { assert("wmv"@.len() == 3); }
        reveal_strlit("flv"); assert(e != "flv"@) by { assert("flv"@.len() == 3); }
        reveal_strlit("webm"); assert(e != "webm"@) by { assert("webm"@[0] == 'w'); }
        reveal_strlit("m4v"); assert(e != "m4v"@) by { assert("m4v"@.len() == 3); }
        reveal_strlit("m2ts"); assert(e != "m2ts"@) by { assert("m2ts"@[0] == 'm'); }
        reveal_strlit("mp3"); assert(e != "mp3"@) by { assert("mp3"@.len() == 3); }
        reveal_strlit("wav"); assert(e != "wav"@) by { assert("wav"@.len() == 3); }
        reveal_strlit("flac"); assert(e != "flac"@) by { assert("flac"@[0] == 'f'); }
        reveal_strlit("aac"); assert(e != "aac"@) by { assert("aac"@.len() == 3); }
        reveal_strlit("ogg"); assert(e != "ogg"@) by { assert("ogg"@.len() == 3); }
        reveal_strlit("m4a"); assert(e != "m4a"@) by { assert("m4a"@.len() == 3); }
        reveal_strlit("wma"); assert(e != "wma"@) by { assert("wma"@.len() == 3); }
        reveal_strlit("opus"); assert(e != "opus"@) by { assert("opus"@[0] == 'o'); }
        reveal_strlit("pdf"); assert(e != "pdf"@) by { assert("pdf"@.len() == 3); }
        reveal_strlit("doc"); assert(e != "doc"@) by { assert("doc"@.len() == 3); }
        reveal_strlit("docx"); assert(e != "docx"@) by { assert("docx"@[0] == 'd'); }
        reveal_strlit("xls"); assert(e != "xls"@) by { assert("xls"@.len() == 3); }
        reveal_strlit("xlsx"); assert(e != "xlsx"@) by { assert("xlsx"@[0] == 'x'); }
        reveal_strlit("ppt"); assert(e != "ppt"@) by { assert("ppt"@.len() == 3); }
        reveal_strlit("pptx"); assert(e != "pptx"@) by { assert("pptx"@[0] == 'p'); }
        reveal_strlit("txt"); assert(e != "txt"@) by { assert("txt"@.len() == 3); }
        reveal_strlit("epub"); assert(e != "epub"@) by { assert("epub"@[0] == 'e'); }
        reveal_strlit("md"); assert(e != "md"@) by { assert("md"@.len() == 2); }
        reveal_strlit("png"); assert(e != "png"@) by { assert("png"@.len() == 3); }
        reveal_strlit("jpg"); assert(e != "jpg"@) by { assert("jpg"@.len() == 3); }
        reveal_strlit("jpeg"); assert(e != "jpeg"@) by { assert("jpeg"@[1] == 'p'); }
        reveal_strlit("gif"); assert(e != "gif"@) by { assert("gif"@.len() == 3); }
        reveal_strlit("webp"); assert(e != "webp"@) by { assert("webp"@[0] == 'w'); }
        reveal_strlit("svg"); assert(e != "svg"@) by { assert("svg"@.len() == 3); }
        reveal_strlit("bmp"); assert(e != "bmp"@) by { assert("bmp"@.len() == 3); }
        reveal_strlit("ico"); assert(e != "ico"@) by { assert("ico"@.len() == 3); }
        reveal_strlit("tiff"); assert(e != "tiff"@) by { assert("tiff"@[0] == 't'); }
    }
    if e == "xml"@ {
        reveal_strlit("xml");
        assert(e.len() == 3 && e[0] == 'x' && e[1] == 'm' && e[2] == 'l');
        reveal_strlit("zip"); assert(e != "zip"@) by { assert("zip"@[0] == 'z'); }
        reveal_strlit("rar"); assert(e != "rar"@) by { assert("rar"@[0] == 'r'); }
        reveal_strlit("7z"); assert(e != "7z"@) by { assert("7z"@.len() == 2); }
        reveal_strlit("tar"); assert(e != "tar"@) by { assert("tar"@[0] == 't'); }
        reveal_strlit("gz"); assert(e != "gz"@) by { assert("gz"@.len() == 2); }
        reveal_strlit("bz2"); assert(e != "bz2"@) by { assert("bz2"@[0] == 'b'); }
        reveal_strlit("xz"); assert(e != "xz"@) by { assert("xz"@.len() == 2); }
        reveal_strlit("iso"); assert(e != "iso"@) by { assert("iso"@[0] == 'i'); }
        reveal_strlit("dmg"); assert(e != "dmg"@) by { assert("dmg"@[0] == 'd'); }
        reveal_strlit("pkg"); assert(e != "pkg"@) by { assert("pkg"@[0] == 'p'); }
        reveal_strlit("tgz"); assert(e != "tgz"@) by { assert("tgz"@[0] == 't'); }
        reveal_strlit("exe"); assert(e != "exe"@) by { assert("exe"@[0] == 'e'); }
        reveal_strlit("msi"); assert(e != "msi"@) by { assert("msi"@[0] == 'm'); }
        reveal_strlit("apk"); assert(e != "apk"@) by { assert("apk"@[0] == 'a'); }
        reveal_strlit("deb"); assert(e != "deb"@) by { assert("deb"@[0] == 'd'); }
        reveal_strlit("rpm"); assert(e != "rpm"@) by { assert("rpm"@[0] == 'r'); }
        reveal_strlit("appimage"); assert(e != "appimage"@) by { assert("appimage"@.len() == 8); }
        reveal_strlit("bat"); assert(e != "bat"@) by { assert("bat"@[0] == 'b'); }
        reveal_strlit("cmd"); assert(e != "cmd"@) by { assert("cmd"@[0] == 'c'); }
        reveal_strlit("ps1"); assert(e != "ps1"@) by { assert("ps1"@[0] == 'p'); }
        reveal_strlit("mp4"); assert(e != "mp4"@) by { assert("mp4"@[0] == 'm'); }
        reveal_strlit("mkv"); assert(e != "mkv"@) by { assert("mkv"@[0] == 'm'); }
        reveal_strlit("mov"); assert(e != "mov"@) by { assert("mov"@[0] == 'm'); }
        reveal_strlit("avi"); assert(e != "avi"@) by { assert("avi"@[0] == 'a'); }
        reveal_strlit("wmv"); assert(e != "wmv"@) by { assert("wmv"@[0] == 'w'); }
        reveal_strlit("flv"); assert(e != "flv"@) by { assert("flv"@[0] == 'f'); }
        reveal_strlit("webm"); assert(e != "webm"@) by { assert("webm"@.len() == 4); }
        reveal_strlit("m4v"); assert(e != "m4v"@) by { assert("m4v"@[0] == 'm'); }
        reveal_strlit("m2ts"); assert(e != "m2ts"@) by { assert("m2ts"@.len() == 4); }
        reveal_strlit("mp3"); assert(e != "mp3"@) by { assert("mp3"@[0] == 'm'); }
        reveal_strlit("wav"); assert(e != "wav"@) by { assert("wav"@[0] == 'w'); }
        reveal_strlit("flac"); assert(e != "flac"@) by { assert("flac"@.len() == 4); }
        reveal_strlit("aac"); assert(e != "aac"@) by { assert("aac"@[0] == 'a'); }
        reveal_strlit("ogg"); assert(e != "ogg"@) by { assert("ogg"@[0] == 'o'); }
        reveal_strlit("m4a"); assert(e != "m4a"@) by { assert("m4a"@[0] == 'm'); }
        reveal_strlit("wma"); assert(e != "wma"@) by { assert("wma"@[0] == 'w'); }
        reveal_strlit("opus"); assert(e != "opus"@) by { assert("opus"@.len() == 4); }
        reveal_strlit("pdf"); assert(e != "pdf"@) by { assert("pdf"@[0] == 'p'); }
        reveal_strlit("doc"); assert(e != "doc"@) by { assert("doc"@[0] == 'd'); }
        reveal_strlit("docx"); assert(e != "docx"@) by { assert("docx"@.len() == 4); }
        reveal_strlit("xls"); assert(e != "xls"@) by { assert("xls"@[1] == 'l'); }
        reveal_strlit("xlsx"); assert(e != "xlsx"@) by { assert("xlsx"@.len() == 4); }
        reveal_strlit("ppt"); assert(e != "ppt"@) by { assert("ppt"@[0] == 'p'); }
        reveal_strlit("pptx"); assert(e != "pptx"@) by { assert("pptx"@.len() == 4); }
        reveal_strlit("txt"); assert(e != "txt"@) by { assert("txt"@[0] == 't'); }
        reveal_strlit("epub"); assert(e != "epub"@) by { assert("epub"@.len() == 4); }
        reveal_strlit("md"); assert(e != "md"@) by { assert("md"@.len() == 2); }
        reveal_strlit("png"); assert(e != "png"@) by { assert("png"@[0] == 'p'); }
        reveal_strlit("jpg"); assert(e != "jpg"@) by { assert("jpg"@[0] == 'j'); }
        reveal_strlit("jpeg"); assert(e != "jpeg"@) by { assert("jpeg"@.len() == 4); }
        reveal_strlit("gif"); assert(e != "gif"@) by { assert("gif"@[0] == 'g'); }
        reveal_strlit("webp"); assert(e != "webp"@) by { assert("webp"@.len() == 4); }
        reveal_strlit("svg"); assert(e != "svg"@) by { assert("svg"@[0] == 's'); }
        reveal_strlit("bmp"); assert(e != "bmp"@) by { assert("bmp"@[0] == 'b'); }
        reveal_strlit("ico"); assert(e != "ico"@) by { assert("ico"@[0] == 'i'); }
        reveal_strlit("tiff"); assert(e != "tiff"@) by { assert("tiff"@.len() == 4); }
    }
    if e == "toml"@ {
        reveal_strlit("toml");
        assert(e.len() == 4 && e[0] == 't' && e[1] == 'o' && e[2] == 'm' && e[3] == 'l');
        reveal_strlit("zip"); assert(e != "zip"@) by { assert("zip"@.len() == 3); }
        reveal_strlit("rar"); assert(e != "rar"@) by { assert("rar"@.len() == 3); }
        reveal_strlit("7z"); assert(e != "7z"@) by { assert("7z"@.len() == 2); }
        reveal_strlit("tar"); assert(e != "tar"@) by { assert("tar"@.len() == 3); }
        reveal_strlit("gz"); assert(e != "gz"@) by { assert("gz"@.len() == 2); }
        reveal_strlit("bz2"); assert(e != "bz2"@) by { assert("bz2"@.len() == 3); }
        reveal_strlit("xz"); assert(e != "xz"@) by { assert("xz"@.len() == 2); }
        reveal_strlit("iso"); assert(e != "iso"@) by { assert("iso"@.len() == 3); }
        reveal_strlit("dmg"); assert(e != "dmg"@) by { assert("dmg"@.len() == 3); }
        reveal_strlit("pkg"); assert(e != "pkg"@) by { assert("pkg"@.len() == 3); }
        reveal_strlit("tgz"); assert(e != "tgz"@) by { assert("tgz"@.len() == 3); }
        reveal_strlit("exe"); assert(e != "exe"@) by { assert("exe"@.len() == 3); }
        reveal_strlit("msi"); assert(e != "msi"@) by { assert("msi"@.len() == 3); }
        reveal_strlit("apk"); assert(e != "apk"@) by { assert("apk"@.len() == 3); }
        reveal_strlit("deb"); assert(e != "deb"@) by { assert("deb"@.len() == 3); }
        reveal_strlit("rpm"); assert(e != "rpm"@) by { assert("rpm"@.len() == 3); }
        reveal_strlit("appimage"); assert(e != "appimage"@) by { assert("appimage"@.len() == 8); }
        reveal_strlit("bat"); assert(e != "bat"@) by { assert("bat"@.len() == 3); }
        reveal_strlit("cmd"); assert(e != "cmd"@) by { assert("cmd"@.len() == 3); }
        reveal_strlit("ps1"); assert(e != "ps1"@) by { assert("ps1"@.len() == 3); }
        reveal_strlit("mp4"); assert(e != "mp4"@) by { assert("mp4"@.len() == 3); }
        reveal_strlit("mkv"); assert(e != "mkv"@) by { assert("mkv"@.len() == 3); }
        reveal_strlit("mov"); assert(e != "mov"@) by { assert("mov"@.len() == 3); }
        reveal_strlit("avi"); assert(e != "avi"@) by { assert("avi"@.len() == 3); }
        reveal_strlit("wmv"); assert(e != "wmv"@) by { assert("wmv"@.len() == 3); }
        reveal_strlit("flv"); assert(e != "flv"@) by { assert("flv"@.len() == 3); }
        reveal_strlit("webm"); assert(e != "webm"@) by { assert("webm"@[0] == 'w'); }
        reveal_strlit("m4v"); assert(e != "m4v"@) by { assert("m4v"@.len() == 3); }
        reveal_strlit("m2ts"); assert(e != "m2ts"@) by { assert("m2ts"@[0] == 'm'); }
        reveal_strlit("mp3"); assert(e != "mp3"@) by { assert("mp3"@.len() == 3); }
        reveal_strlit("wav"); assert(e != "wav"@) by { assert("wav"@.len() == 3); }
        reveal_strlit("flac"); assert(e != "flac"@) by { assert("flac"@[0] == 'f'); }
        reveal_strlit("aac"); assert(e != "aac"@) by { assert("aac"@.len() == 3); }
        reveal_strlit("ogg"); assert(e != "ogg"@) by { assert("ogg"@.len() == 3); }
        reveal_strlit("m4a"); assert(e != "m4a"@) by { assert("m4a"@.len() == 3); }
        reveal_strlit("wma"); assert(e != "wma"@) by { assert("wma"@.len() == 3); }
        reveal_strlit("opus"); assert(e != "opus"@) by { assert("opus"@[0] == 'o'); }
        reveal_strlit("pdf"); assert(e != "pdf"@) by { assert("pdf"@.len() == 3); }
        reveal_strlit("doc"); assert(e != "doc"@) by { assert("doc"@.len() == 3); }
        reveal_strlit("docx"); assert(e != "docx"@) by { assert("docx"@[0] == 'd'); }
        reveal_strlit("xls"); assert(e != "xls"@) by { assert("xls"@.len() == 3); }
        reveal_strlit("xlsx"); assert(e != "xlsx"@) by { assert("xlsx"@[0] == 'x'); }
        reveal_strlit("ppt"); assert(e != "ppt"@) by { assert("ppt"@.len() == 3); }
        reveal_strlit("pptx"); assert(e != "pptx"@) by { assert("pptx"@[0] == 'p'); }
        reveal_strlit("txt"); assert(e != "txt"@) by { assert("txt"@.len() == 3); }
        reveal_strlit("epub"); assert(e != "epub"@) by { assert("epub"@[0] == 'e'); }
        reveal_strlit("md"); assert(e != "md"@) by { assert("md"@.len() == 2); }
        reveal_strlit("png"); assert(e != "png"@) by { assert("png"@.len() == 3); }
        reveal_strlit("jpg"); assert(e != "jpg"@) by { assert("jpg"@.len() == 3); }
        reveal_strlit("jpeg"); assert(e != "jpeg"@) by { assert("jpeg"@[0] == 'j'); }
        reveal_strlit("gif"); assert(e != "gif"@) by { assert("gif"@.len() == 3); }
        reveal_strlit("webp"); assert(e != "webp"@) by { assert("webp"@[0] == 'w'); }
        reveal_strlit("svg"); assert(e != "svg"@) by { assert("svg"@.len() == 3); }
        reveal_strlit("bmp"); assert(e != "bmp"@) by { assert("bmp"@.len() == 3); }
        reveal_strlit("ico"); assert(e != "ico"@) by { assert("ico"@.len() == 3); }
        reveal_strlit("tiff"); assert(e != "tiff"@) by { assert("tiff"@[1] == 'i'); }
    }
    if e == "yaml"@ {
        reveal_strlit("yaml");
        assert(e.len() == 4 && e[0] == 'y' && e[1] == 'a' && e[2] == 'm' && e[3] == 'l');
        reveal_strlit("zip"); assert(e != "zip"@) by { assert("zip"@.len() == 3); }
        reveal_strlit("rar"); assert(e != "rar"@) by { assert("rar"@.len() == 3); }
        reveal_strlit("7z"); assert(e != "7z"@) by { assert("7z"@.len() == 2); }
        reveal_strlit("tar"); assert(e != "tar"@) by { assert("tar"@.len() == 3); }
        reveal_strlit("gz"); assert(e != "gz"@) by { assert("gz"@.len() == 2); }
        reveal_strlit("bz2"); assert(e != "bz2"@) by { assert("bz2"@.len() == 3); }
        reveal_strlit("xz"); assert(e != "xz"@) by { assert("xz"@.len() == 2); }
        reveal_strlit("iso"); assert(e != "iso"@) by { assert("iso"@.len() == 3); }
        reveal_strlit("dmg"); assert(e != "dmg"@) by { assert("dmg"@.len() == 3); }
        reveal_strlit("pkg"); assert(e != "pkg"@) by { assert("pkg"@.len() == 3); }
        reveal_strlit("tgz"); assert(e != "tgz"@) by { assert("tgz"@.len() == 3); }
        reveal_strlit("exe"); assert(e != "exe"@) by { assert("exe"@.len() == 3); }
        reveal_strlit("msi"); assert(e != "msi"@) by { assert("msi"@.len() == 3); }
        reveal_strlit("apk"); assert(e != "apk"@) by { assert("apk"@.len() == 3); }
        reveal_strlit("deb"); assert(e != "deb"@) by { assert("deb"@.len() == 3); }
        reveal_strlit("rpm"); assert(e != "rpm"@) by { assert("rpm"@.len() == 3); }
        reveal_strlit("appimage"); assert(e != "appimage"@) by { assert("appimage"@.len() == 8); }
        reveal_strlit("bat"); assert(e != "bat"@) by { assert("bat"@.len() == 3); }
        reveal_strlit("cmd"); assert(e != "cmd"@) by { assert("cmd"@.len() == 3); }
        reveal_strlit("ps1"); assert(e != "ps1"@) by { assert("ps1"@.len() == 3); }
        reveal_strlit("mp4"); assert(e != "mp4"@) by { assert("mp4"@.len() == 3); }
        reveal_strlit("mkv"); assert(e != "mkv"@) by { assert("mkv"@.len() == 3); }
        reveal_strlit("mov"); assert(e != "mov"@) by { assert("mov"@.len() == 3); }
        reveal_strlit("avi"); assert(e != "avi"@) by { assert("avi"@.len() == 3); }
        reveal_strlit("wmv"); assert(e != "wmv"@) by { assert("wmv"@.len() == 3); }
        reveal_strlit("flv"); assert(e != "flv"@) by { assert("flv"@.len() == 3); }
        reveal_strlit("webm"); assert(e != "webm"@) by { assert("webm"@[0] == 'w'); }
        reveal_strlit("m4v"); assert(e != "m4v"@) by { assert("m4v"@.len() == 3); }
        reveal_strlit("m2ts"); assert(e != "m2ts"@) by { assert("m2ts"@[0] == 'm'); }
        reveal_strlit("mp3"); assert(e != "mp3"@) by { assert("mp3"@.len() == 3); }
        reveal_strlit("wav"); assert(e != "wav"@) by { assert("wav"@.len() == 3); }
        reveal_strlit("flac"); assert(e != "flac"@) by { assert("flac"@[0] == 'f'); }
        reveal_strlit("aac"); assert(e != "aac"@) by { assert("aac"@.len() == 3); }
        reveal_strlit("ogg"); assert(e != "ogg"@) by { assert("ogg"@.len() == 3); }
        reveal_strlit("m4a"); assert(e != "m4a"@) by { assert("m4a"@.len() == 3); }
        reveal_strlit("wma"); assert(e != "wma"@) by { assert("wma"@.len() == 3); }
        reveal_strlit("opus"); assert(e != "opus"@) by { assert("opus"@[0] == 'o'); }
        reveal_strlit("pdf"); assert(e != "pdf"@) by { assert("pdf"@.len() == 3); }
        reveal_strlit("doc"); assert(e != "doc"@) by { assert("doc"@.len() == 3); }
        reveal_strlit("docx"); assert(e != "docx"@) by { assert("docx"@[0] == 'd'); }
        reveal_strlit("xls"); assert(e != "xls"@) by { assert("xls"@.len() == 3); }
        reveal_strlit("xlsx"); assert(e != "xlsx"@) by { assert("xlsx"@[0] == 'x'); }
        reveal_strlit("ppt"); assert(e != "ppt"@) by { assert("ppt"@.len() == 3); }
        reveal_strlit("pptx"); assert(e != "pptx"@) by { assert("pptx"@[0] == 'p'); }
        reveal_strlit("txt"); assert(e != "txt"@) by { assert("txt"@.len() == 3); }
        reveal_strlit("epub"); assert(e != "epub"@) by { assert("epub"@[0] == 'e'); }
        reveal_strlit("md"); assert(e != "md"@) by { assert("md"@.len() == 2); }
        reveal_strlit("png"); assert(e != "png"@) by { assert("png"@.len() == 3); }
        reveal_strlit("jpg"); assert(e != "jpg"@) by { assert("jpg"@.len() == 3); }
        reveal_strlit("jpeg"); assert(e != "jpeg"@) by { assert("jpeg"@[0] == 'j'); }
        reveal_strlit("gif"); assert(e != "gif"@) by { assert("gif"@.len() == 3); }
        reveal_strlit("webp"); assert(e != "webp"@) by { assert("webp"@[0] == 'w'); }
        reveal_strlit("svg"); assert(e != "svg"@) by { assert("svg"@.len() == 3); }
        reveal_strlit("bmp"); assert(e != "bmp"@) by { assert("bmp"@.len() == 3); }
        reveal_strlit("ico"); assert(e != "ico"@) by { assert("ico"@.len() == 3); }
        reveal_strlit("tiff"); assert(e != "tiff"@) by { assert("tiff"@[0] == 't'); }
    }
}

/// The category of each extension: archives are `compressed`, installers
/// `installer`, videos `video`, audio `audio`; anything else (documents,
/// images, code, no extension) is `document`.
pub proof fn lemma_category_labels(e: Seq<char>)
    ensures
        e == "zip"@ || e == "rar"@ || e == "7z"@ || e == "tar"@ || e == "gz"@ || e == "bz2"@ || e == "xz"@ || e == "iso"@ || e == "dmg"@ || e == "pkg"@ || e == "tgz"@ ==> category_of(e) == "compressed"@,
        e == "exe"@ || e == "msi"@ || e == "apk"@ || e == "deb"@ || e == "rpm"@ || e == "appimage"@ || e == "bat"@ || e == "cmd"@ || e == "ps1"@ ==> category_of(e) == "installer"@,
        e == "mp4"@ || e == "mkv"@ || e == "mov"@ || e == "avi"@ || e == "wmv"@ || e == "flv"@ || e == "webm"@ || e == "m4v"@ || e == "m2ts"@ ==> category_of(e) == "video"@,
        e == "mp3"@ || e == "wav"@ || e == "flac"@ || e == "aac"@ || e == "ogg"@ || e == "m4a"@ || e == "wma"@ || e == "opus"@ ==> category_of(e) == "audio"@,
        e.len() == 0 ==> category_of(e) == "document"@,
        e != "zip"@ && e != "rar"@ && e != "7z"@ && e != "tar"@ && e != "gz"@ && e != "bz2"@ && e != "xz"@ && e != "iso"@ && e != "dmg"@ && e != "pkg"@ && e != "tgz"@ && e != "exe"@ && e != "msi"@ && e != "apk"@ && e != "deb"@ && e != "rpm"@ && e != "appimage"@ && e != "bat"@ && e != "cmd"@ && e != "ps1"@ && e != "mp4"@ && e != "mkv"@ && e != "mov"@ && e != "avi"@ && e != "wmv"@ && e != "flv"@ && e != "webm"@ && e != "m4v"@ && e != "m2ts"@ && e != "mp3"@ && e != "wav"@ && e != "flac"@ && e != "aac"@ && e != "ogg"@ && e != "m4a"@ && e != "wma"@ && e != "opus"@ ==> category_of(e) == "document"@,
{
    if e == "zip"@ {
        reveal_strlit("zip");
        assert(e.len() == 3 && e[0] == 'z' && e[1] == 'i' && e[2] == 'p');
    }
    if e == "rar"@ {
        reveal_strlit("rar");
        assert(e.len() == 3 && e[0] == 'r' && e[1] == 'a' && e[2] == 'r');
    }
    if e == "7z"@ {
        reveal_strlit("7z");
        assert(e.len() == 2 && e[0] == '7' && e[1] == 'z');
    }
    if e == "tar"@ {
        reveal_strlit("tar");
        assert(e.len() == 3 && e[0] == 't' && e[1] == 'a' && e[2] == 'r');
    }
    if e == "gz"@ {
        reveal_strlit("gz");
        assert(e.len() == 2 && e[0] == 'g' && e[1] == 'z');
    }
    if e == "bz2"@ {
        reveal_strlit("bz2");
        assert(e.len() == 3 && e[0] == 'b' && e[1] == 'z' && e[2] == '2');
    }
    if e == "xz"@ {
        reveal_strlit("xz");
        assert(e.len() == 2 && e[0] == 'x' && e[1] == 'z');
    }
    if e == "iso"@ {
        reveal_strlit("iso");
        assert(e.len() == 3 && e[0] == 'i' && e[1] == 's' && e[2] == 'o');
    }
    if e == "dmg"@ {
        reveal_strlit("dmg");
        assert(e.len() == 3 && e[0] == 'd' && e[1] == 'm' && e[2] == 'g');
    }
    if e == "pkg"@ {
        reveal_strlit("pkg");
        assert(e.len() == 3 && e[0] == 'p' && e[1] == 'k' && e[2] == 'g');
    }
    if e == "tgz"@ {
        reveal_strlit("tgz");
        assert(e.len() == 3 && e[0] == 't' && e[1] == 'g' && e[2] == 'z');
    }
    if e == "exe"@ {
        reveal_strlit("exe");
        assert(e.len() == 3 && e[0] == 'e' && e[1] == 'x' && e[2] == 'e');
        reveal_strlit("zip"); assert(e != "zip"@) by { assert("zip"@[0] == 'z'); }
        reveal_strlit("rar"); assert(e != "rar"@) by { assert("rar"@[0] == 'r'); }
        reveal_strlit("7z"); assert(e != "7z"@) by { assert("7z"@.len() == 2); }
        reveal_strlit("tar"); assert(e != "tar"@) by { assert("tar"@[0] == 't'); }
        reveal_strlit("gz"); assert(e != "gz"@) by { assert("gz"@.len() == 2); }
        reveal_strlit("bz2"); assert(e != "bz2"@) by { assert("bz2"@[0] == 'b'); }
        reveal_strlit("xz"); assert(e != "xz"@) by { assert("xz"@.len() == 2); }
        reveal_strlit("iso"); assert(e != "iso"@) by { assert("iso"@[0] == 'i'); }
        reveal_strlit("dmg"); assert(e != "dmg"@) by { assert("dmg"@[0] == 'd'); }
        reveal_strlit("pkg"); assert(e != "pkg"@) by { assert("pkg"@[0] == 'p'); }
        reveal_strlit("tgz"); assert(e != "tgz"@) by { assert("tgz"@[0] == 't'); }
    }
    if e == "msi"@ {
        reveal_strlit("msi");
        assert(e.len() == 3 && e[0] == 'm' && e[1] == 's' && e[2] == 'i');
        reveal_strlit("zip"); assert(e != "zip"@) by { assert("zip"@[0] == 'z'); }
        reveal_strlit("rar"); assert(e != "rar"@) by { assert("rar"@[0] == 'r'); }
        reveal_strlit("7z"); assert(e != "7z"@) by { assert("7z"@.len() == 2); }
        reveal_strlit("tar"); assert(e != "tar"@) by { assert("tar"@[0] == 't'); }
        reveal_strlit("gz"); assert(e != "gz"@) by { assert("gz"@.len() == 2); }
        reveal_strlit("bz2"); assert(e != "bz2"@) by { assert("bz2"@[0] == 'b'); }
        reveal_strlit("xz"); assert(e != "xz"@) by { assert("xz"@.len() == 2); }
        reveal_strlit("iso"); assert(e != "iso"@) by { assert("iso"@[0] == 'i'); }
        reveal_strlit("dmg"); assert(e != "dmg"@) by { assert("dmg"@[0] == 'd'); }
        reveal_strlit("pkg"); assert(e != "pkg"@) by { assert("pkg"@[0] == 'p'); }
        reveal_strlit("tgz"); assert(e != "tgz"@) by { assert("tgz"@[0] == 't'); }
    }
    if e == "apk"@ {
        reveal_strlit("apk");
        assert(e.len() == 3 && e[0] == 'a' && e[1] == 'p' && e[2] == 'k');
        reveal_strlit("zip"); assert(e != "zip"@) by { assert("zip"@[0] == 'z'); }
        reveal_strlit("rar"); assert(e != "rar"@) by { assert("rar"@[0] == 'r'); }
        reveal_strlit("7z"); assert(e != "7z"@) by { assert("7z"@.len() == 2); }
        reveal_strlit("tar"); assert(e != "tar"@) by { assert("tar"@[0] == 't'); }
        reveal_strlit("gz"); assert(e != "gz"@) by { assert("gz"@.len() == 2); }
        reveal_strlit("bz2"); assert(e != "bz2"@) by { assert("bz2"@[0] == 'b'); }
        reveal_strlit("xz"); assert(e != "xz"@) by { assert("xz"@.len() == 2); }
        reveal_strlit("iso"); assert(e != "iso"@) by { assert("iso"@[0] == 'i'); }
        reveal_strlit("dmg"); assert(e != "dmg"@) by { assert("dmg"@[0] == 'd'); }
        reveal_strlit("pkg"); assert(e != "pkg"@) by { assert("pkg"@[0] == 'p'); }
        reveal_strlit("tgz"); assert(e != "tgz"@) by { assert("tgz"@[0] == 't'); }
    }
    if e == "deb"@ {
        reveal_strlit("deb");
        assert(e.len() == 3 && e[0] == 'd' && e[1] == 'e' && e[2] == 'b');
        reveal_strlit("zip"); assert(e != "zip"@) by { assert("zip"@[0] == 'z'); }
        reveal_strlit("rar"); assert(e != "rar"@) by { assert("rar"@[0] == 'r'); }
        reveal_strlit("7z"); assert(e != "7z"@) by { assert("7z"@.len() == 2); }
        reveal_strlit("tar"); assert(e != "tar"@) by { assert("tar"@[0] == 't'); }
        reveal_strlit("gz"); assert(e != "gz"@) by { assert("gz"@.len() == 2); }
        reveal_strlit("bz2"); assert(e != "bz2"@) by { assert("bz2"@[0] == 'b'); }
        reveal_strlit("xz"); assert(e != "xz"@) by { assert("xz"@.len() == 2); }
        reveal_strlit("iso"); assert(e != "iso"@) by { assert("iso"@[0] == 'i'); }
        reveal_strlit("dmg"); assert(e != "dmg"@) by { assert("dmg"@[1] == 'm'); }
        reveal_strlit("pkg"); assert(e != "pkg"@) by { assert("pkg"@[0] == 'p'); }
        reveal_strlit("tgz"); assert(e != "tgz"@) by { assert("tgz"@[0] == 't'); }
    }
    if e == "rpm"@ {
        reveal_strlit("rpm");
        assert(e.len() == 3 && e[0] == 'r' && e[1] == 'p' && e[2] == 'm');
        reveal_strlit("zip"); assert(e != "zip"@) by { assert("zip"@[0] == 'z'); }
        reveal_strlit("rar"); assert(e != "rar"@) by { assert("rar"@[1] == 'a'); }
        reveal_strlit("7z"); assert(e != "7z"@) by { assert("7z"@.len() == 2); }
        reveal_strlit("tar"); assert(e != "tar"@) by { assert("tar"@[0] == 't'); }
        reveal_strlit("gz"); assert(e != "gz"@) by { assert("gz"@.len() == 2); }
        reveal_strlit("bz2"); assert(e != "bz2"@) by { assert("bz2"@[0] == 'b'); }
        reveal_strlit("xz"); assert(e != "xz"@) by { assert("xz"@.len() == 2); }
        reveal_strlit("iso"); assert(e != "iso"@) by { assert("iso"@[0] == 'i'); }
        reveal_strlit("dmg"); assert(e != "dmg"@) by { assert("dmg"@[0] == 'd'); }
        reveal_strlit("pkg"); assert(e != "pkg"@) by { assert("pkg"@[0] == 'p'); }
        reveal_strlit("tgz"); assert(e != "tgz"@) by { assert("tgz"@[0] == 't'); }
    }
    if e == "appimage"@ {
        reveal_strlit("appimage");
        assert(e.len() == 8 && e[0] == 'a' && e[1] == 'p' && e[2] == 'p' && e[3] == 'i' && e[4] == 'm' && e[5] == 'a' && e[6] == 'g' && e[7] == 'e');
        reveal_strlit("zip"); assert(e != "zip"@) by { assert("zip"@.len() == 3); }
        reveal_strlit("rar"); assert(e != "rar"@) by { assert("rar"@.len() == 3); }
        reveal_strlit("7z"); assert(e != "7z"@) by { assert("7z"@.len() == 2); }
        reveal_strlit("tar"); assert(e != "tar"@) by { assert("tar"@.len() == 3); }
        reveal_strlit("gz"); assert(e != "gz"@) by { assert("gz"@.len() == 2); }
        reveal_strlit("bz2"); assert(e != "bz2"@) by { assert("bz2"@.len() == 3); }
        reveal_strlit("xz"); assert(e != "xz"@) by { assert("xz"@.len() == 2); }
        reveal_strlit("iso"); assert(e != "iso"@) by { assert("iso"@.len() == 3); }
        reveal_strlit("dmg"); assert(e != "dmg"@) by { assert("dmg"@.len() == 3); }
        reveal_strlit("pkg"); assert(e != "pkg"@) by { assert("pkg"@.len() == 3); }
        reveal_strlit("tgz"); assert(e != "tgz"@) by { assert("tgz"@.len() == 3); }
    }
    if e == "bat"@ {
        reveal_strlit("bat");
        assert(e.len() == 3 && e[0] == 'b' && e[1] == 'a' && e[2] == 't');
        reveal_strlit("zip"); assert(e != "zip"@) by { assert("zip"@[0] == 'z'); }
        reveal_strlit("rar"); assert(e != "rar"@) by { assert("rar"@[0] == 'r'); }
        reveal_strlit("7z"); assert(e != "7z"@) by { assert("7z"@.len() == 2); }
        reveal_strlit("tar"); assert(e != "tar"@) by { assert("tar"@[0] == 't'); }
        reveal_strlit("gz"); assert(e != "gz"@) by { assert("gz"@.len() == 2); }
        reveal_strlit("bz2"); assert(e != "bz2"@) by { assert("bz2"@[1] == 'z'); }
        reveal_strlit("xz"); assert(e != "xz"@) by { assert("xz"@.len() == 2); }
        reveal_strlit("iso"); assert(e != "iso"@) by { assert("iso"@[0] == 'i'); }
        reveal_strlit("dmg"); assert(e != "dmg"@) by { assert("dmg"@[0] == 'd'); }
        reveal_strlit("pkg"); assert(e != "pkg"@) by { assert("pkg"@[0] == 'p'); }
        reveal_strlit("tgz"); assert(e != "tgz"@) by { assert("tgz"@[0] == 't'); }
    }
    if e == "cmd"@ {
        reveal_strlit("cmd");
        assert(e.len() == 3 && e[0] == 'c' && e[1] == 'm' && e[2] == 'd');
        reveal_strlit("zip"); assert(e != "zip"@) by { assert("zip"@[0] == 'z'); }
        reveal_strlit("rar"); assert(e != "rar"@) by { assert("rar"@[0] == 'r'); }
        reveal_strlit("7z"); assert(e != "7z"@) by { assert("7z"@.len() == 2); }
        reveal_strlit("tar"); assert(e != "tar"@) by { assert("tar"@[0] == 't'); }
        reveal_strlit("gz"); assert(e != "gz"@) by { assert("gz"@.len() == 2); }
        reveal_strlit("bz2"); assert(e != "bz2"@) by { assert("bz2"@[0] == 'b'); }
        reveal_strlit("xz"); assert(e != "xz"@) by { assert("xz"@.len() == 2); }
        reveal_strlit("iso"); assert(e != "iso"@) by { assert("iso"@[0] == 'i'); }
        reveal_strlit("dmg"); assert(e != "dmg"@) by { assert("dmg"@[0] == 'd'); }
        reveal_strlit("pkg"); assert(e != "pkg"@) by { assert("pkg"@[0] == 'p'); }
        reveal_strlit("tgz"); assert(e != "tgz"@) by { assert("tgz"@[0] == 't'); }
    }
    if e == "ps1"@ {
        reveal_strlit("ps1");
        assert(e.len() == 3 && e[0] == 'p' && e[1] == 's' && e[2] == '1');
        reveal_strlit("zip"); assert(e != "zip"@) by { assert("zip"@[0] == 'z'); }
        reveal_strlit("rar"); assert(e != "rar"@) by { assert("rar"@[0] == 'r'); }
        reveal_strlit("7z"); assert(e != "7z"@) by { assert("7z"@.len() == 2); }
        reveal_strlit("tar"); assert(e != "tar"@) by { assert("tar"@[0] == 't'); }
        reveal_strlit("gz"); assert(e != "gz"@) by { assert("gz"@.len() == 2); }
        reveal_strlit("bz2"); assert(e != "bz2"@) by { assert("bz2"@[0] == 'b'); }
        reveal_strlit("xz"); assert(e != "xz"@) by { assert("xz"@.len() == 2); }
        reveal_strlit("iso"); assert(e != "iso"@) by { assert("iso"@[0] == 'i'); }
        reveal_strlit("dmg"); assert(e != "dmg"@) by { assert("dmg"@[0] == 'd'); }
        reveal_strlit("pkg"); assert(e != "pkg"@) by { assert("pkg"@[1] == 'k'); }
        reveal_strlit("tgz"); assert(e != "tgz"@) by { assert("tgz"@[0] == 't'); }
    }
    if e == "mp4"@ {
        reveal_strlit("mp4");
        assert(e.len() == 3 && e[0] == 'm' && e[1] == 'p' && e[2] == '4');
        reveal_strlit("zip"); assert(e != "zip"@) by { assert("zip"@[0] == 'z'); }
        reveal_strlit("rar"); assert(e != "rar"@) by { assert("rar"@[0] == 'r'); }
        reveal_strlit("7z"); assert(e != "7z"@) by { assert("7z"@.len() == 2); }
        reveal_strlit("tar"); assert(e != "tar"@) by { assert("tar"@[0] == 't'); }
        reveal_strlit("gz"); assert(e != "gz"@) by { assert("gz"@.len() == 2); }
        reveal_strlit("bz2"); assert(e != "bz2"@) by { assert("bz2"@[0] == 'b'); }
        reveal_strlit("xz"); assert(e != "xz"@) by { assert("xz"@.len() == 2); }
        reveal_strlit("iso"); assert(e != "iso"@) by { assert("iso"@[0] == 'i'); }
        reveal_strlit("dmg"); assert(e != "dmg"@) by { assert("dmg"@[0] == 'd'); }
        reveal_strlit("pkg"); assert(e != "pkg"@) by { assert("pkg"@[0] == 'p'); }
        reveal_strlit("tgz"); assert(e != "tgz"@) by { assert("tgz"@[0] == 't'); }
        reveal_strlit("exe"); assert(e != "exe"@) by { assert("exe"@[0] == 'e'); }
        reveal_strlit("msi"); assert(e != "msi"@) by { assert("msi"@[1] == 's'); }
        reveal_strlit("apk"); assert(e != "apk"@) by { assert("apk"@[0] == 'a'); }
        reveal_strlit("deb"); assert(e != "deb"@) by { assert("deb"@[0] == 'd'); }
        reveal_strlit("rpm"); assert(e != "rpm"@) by { assert("rpm"@[0] == 'r'); }
        reveal_strlit("appimage"); assert(e != "appimage"@) by { assert("appimage"@.len() == 8); }
        reveal_strlit("bat"); assert(e != "bat"@) by { assert("bat"@[0] == 'b'); }
        reveal_strlit("cmd"); assert(e != "cmd"@) by { assert("cmd"@[0] == 'c'); }
        reveal_strlit("ps1"); assert(e != "ps1"@) by { assert("ps1"@[0] == 'p'); }
    }
    if e == "mkv"@ {
        reveal_strlit("mkv");
        assert(e.len() == 3 && e[0] == 'm' && e[1] == 'k' && e[2] == 'v');
        reveal_strlit("zip"); assert(e != "zip"@) by { assert("zip"@[0] == 'z'); }
        reveal_strlit("rar"); assert(e != "rar"@) by { assert("rar"@[0] == 'r'); }
        reveal_strlit("7z"); assert(e != "7z"@) by { assert("7z"@.len() == 2); }
        reveal_strlit("tar"); assert(e != "tar"@) by { assert("tar"@[0] == 't'); }
        reveal_strlit("gz"); assert(e != "gz"@) by { assert("gz"@.len() == 2); }
        reveal_strlit("bz2"); assert(e != "bz2"@) by { assert("bz2"@[0] == 'b'); }
        reveal_strlit("xz"); assert(e != "xz"@) by { assert("xz"@.len() == 2); }
        reveal_strlit("iso"); assert(e != "iso"@) by { assert("iso"@[0] == 'i'); }
        reveal_strlit("dmg"); assert(e != "dmg"@) by { assert("dmg"@[0] == 'd'); }
        reveal_strlit("pkg"); assert(e != "pkg"@) by { assert("pkg"@[0] == 'p'); }
        reveal_strlit("tgz"); assert(e != "tgz"@) by { assert("tgz"@[0] == 't'); }
        reveal_strlit("exe"); assert(e != "exe"@) by { assert("exe"@[0] == 'e'); }
        reveal_strlit("msi"); assert(e != "msi"@) by { assert("msi"@[1] == 's'); }
        reveal_strlit("apk"); assert(e != "apk"@) by { assert("apk"@[0] == 'a'); }
        reveal_strlit("deb"); assert(e != "deb"@) by { assert("deb"@[0] == 'd'); }
        reveal_strlit("rpm"); assert(e != "rpm"@) by { assert("rpm"@[0] == 'r'); }
        reveal_strlit("appimage"); assert(e != "appimage"@) by { assert("appimage"@.len() == 8); }
        reveal_strlit("bat"); assert(e != "bat"@) by { assert("bat"@[0] == 'b'); }
        reveal_strlit("cmd"); assert(e != "cmd"@) by { assert("cmd"@[0] == 'c'); }
        reveal_strlit("ps1"); assert(e != "ps1"@) by { assert("ps1"@[0] == 'p'); }
    }
    if e == "mov"@ {
        reveal_strlit("mov");
        assert(e.len() == 3 && e[0] == 'm' && e[1] == 'o' && e[2] == 'v');
        reveal_strlit("zip"); assert(e != "zip"@) by { assert("zip"@[0] == 'z'); }
        reveal_strlit("rar"); assert(e != "rar"@) by { assert("rar"@[0] == 'r'); }
        reveal_strlit("7z"); assert(e != "7z"@) by { assert("7z"@.len() == 2); }
        reveal_strlit("tar"); assert(e != "tar"@) by { assert("tar"@[0] == 't'); }
        reveal_strlit("gz"); assert(e != "gz"@) by { assert("gz"@.len() == 2); }
        reveal_strlit("bz2"); assert(e != "bz2"@) by { assert("bz2"@[0] == 'b'); }
        reveal_strlit("xz"); assert(e != "xz"@) by { assert("xz"@.len() == 2); }
        reveal_strlit("iso"); assert(e != "iso"@) by { assert("iso"@[0] == 'i'); }
        reveal_strlit("dmg"); assert(e != "dmg"@) by { assert("dmg"@[0] == 'd'); }
        reveal_strlit("pkg"); assert(e != "pkg"@) by { assert("pkg"@[0] == 'p'); }
        reveal_strlit("tgz"); assert(e != "tgz"@) by { assert("tgz"@[0] == 't'); }
        reveal_strlit("exe"); assert(e != "exe"@) by { assert("exe"@[0] == 'e'); }
        reveal_strlit("msi"); assert(e != "msi"@) by { assert("msi"@[1] == 's'); }
        reveal_strlit("apk"); assert(e != "apk"@) by { assert("apk"@[0] == 'a'); }
        reveal_strlit("deb"); assert(e != "deb"@) by { assert("deb"@[0] == 'd'); }
        reveal_strlit("rpm"); assert(e != "rpm"@) by { assert("rpm"@[0] == 'r'); }
        reveal_strlit("appimage"); assert(e != "appimage"@) by { assert("appimage"@.len() == 8); }
        reveal_strlit("bat"); assert(e != "bat"@) by { assert("bat"@[0] == 'b'); }
        reveal_strlit("cmd"); assert(e != "cmd"@) by { assert("cmd"@[0] == 'c'); }
        reveal_strlit("ps1"); assert(e != "ps1"@) by { assert("ps1"@[0] == 'p'); }
    }
    if e == "avi"@ {
        reveal_strlit("avi");
        assert(e.len() == 3 && e[0] == 'a' && e[1] == 'v' && e[2] == 'i');
        reveal_strlit("zip"); assert(e != "zip"@) by { assert("zip"@[0] == 'z'); }
        reveal_strlit("rar"); assert(e != "rar"@) by { assert("rar"@[0] == 'r'); }
        reveal_strlit("7z"); assert(e != "7z"@) by { assert("7z"@.len() == 2); }
        reveal_strlit("tar"); assert(e != "tar"@) by { assert("tar"@[0] == 't'); }
        reveal_strlit("gz"); assert(e != "gz"@) by { assert("gz"@.len() == 2); }
        reveal_strlit("bz2"); assert(e != "bz2"@) by { assert("bz2"@[0] == 'b'); }
        reveal_strlit("xz"); assert(e != "xz"@) by { assert("xz"@.len() == 2); }
        reveal_strlit("iso"); assert(e != "iso"@) by { assert("iso"@[0] == 'i'); }
        reveal_strlit("dmg"); assert(e != "dmg"@) by { assert("dmg"@[0] == 'd'); }
        reveal_strlit("pkg"); assert(e != "pkg"@) by { assert("pkg"@[0] == 'p'); }
        reveal_strlit("tgz"); assert(e != "tgz"@) by { assert("tgz"@[0] == 't'); }
        reveal_strlit("exe"); assert(e != "exe"@) by { assert("exe"@[0] == 'e'); }
        reveal_strlit("msi"); assert(e != "msi"@) by { assert("msi"@[0] == 'm'); }
        reveal_strlit("apk"); assert(e != "apk"@) by { assert("apk"@[1] == 'p'); }
        reveal_strlit("deb"); assert(e != "deb"@) by { assert("deb"@[0] == 'd'); }
        reveal_strlit("rpm"); assert(e != "rpm"@) by { assert("rpm"@[0] == 'r'); }
        reveal_strlit("appimage"); assert(e != "appimage"@) by { assert("appimage"@.len() == 8); }
        reveal_strlit("bat"); assert(e != "bat"@) by { assert("bat"@[0] == 'b'); }
        reveal_strlit("cmd"); assert(e != "cmd"@) by { assert("cmd"@[0] == 'c'); }
        reveal_strlit("ps1"); assert(e != "ps1"@) by { assert("ps1"@[0] == 'p'); }
    }
    if e == "wmv"@ {
        reveal_strlit("wmv");
        assert(e.len() == 3 && e[0] == 'w' && e[1] == 'm' && e[2] == 'v');
        reveal_strlit("zip"); assert(e != "zip"@) by { assert("zip"@[0] == 'z'); }
        reveal_strlit("rar"); assert(e != "rar"@) by { assert("rar"@[0] == 'r'); }
        reveal_strlit("7z"); assert(e != "7z"@) by { assert("7z"@.len() == 2); }
        reveal_strlit("tar"); assert(e != "tar"@) by { assert("tar"@[0] == 't'); }
        reveal_strlit("gz"); assert(e != "gz"@) by { assert("gz"@.len() == 2); }
        reveal_strlit("bz2"); assert(e != "bz2"@) by { assert("bz2"@[0] == 'b'); }
        reveal_strlit("xz"); assert(e != "xz"@) by { assert("xz"@.len() == 2); }
        reveal_strlit("iso"); assert(e != "iso"@) by { assert("iso"@[0] == 'i'); }
        reveal_strlit("dmg"); assert(e != "dmg"@) by { assert("dmg"@[0] == 'd'); }
        reveal_strlit("pkg"); assert(e != "pkg"@) by { assert("pkg"@[0] == 'p'); }
        reveal_strlit("tgz"); assert(e != "tgz"@) by { assert("tgz"@[0] == 't'); }
        reveal_strlit("exe"); assert(e != "exe"@) by { assert("exe"@[0] == 'e'); }
        reveal_strlit("msi"); assert(e != "msi"@) by { assert("msi"@[0] == 'm'); }
        reveal_strlit("apk"); assert(e != "apk"@) by { assert("apk"@[0] == 'a'); }
        reveal_strlit("deb"); assert(e != "deb"@) by { assert("deb"@[0] == 'd'); }
        reveal_strlit("rpm"); assert(e != "rpm"@) by { assert("rpm"@[0] == 'r'); }
        reveal_strlit("appimage"); assert(e != "appimage"@) by { assert("appimage"@.len() == 8); }
        reveal_strlit("bat"); assert(e != "bat"@) by { assert("bat"@[0] == 'b'); }
        reveal_strlit("cmd"); assert(e != "cmd"@) by { assert("cmd"@[0] == 'c'); }
        reveal_strlit("ps1"); assert(e != "ps1"@) by { assert("ps1"@[0] == 'p'); }
    }
    if e == "flv"@ {
        reveal_strlit("flv");
        assert(e.len() == 3 && e[0] == 'f' && e[1] == 'l' && e[2] == 'v');
        reveal_strlit("zip"); assert(e != "zip"@) by { assert("zip"@[0] == 'z'); }
        reveal_strlit("rar"); assert(e != "rar"@) by { assert("rar"@[0] == 'r'); }
        reveal_strlit("7z"); assert(e != "7z"@) by { assert("7z"@.len() == 2); }
        reveal_strlit("tar"); assert(e != "tar"@) by { assert("tar"@[0] == 't'); }
        reveal_strlit("gz"); assert(e != "gz"@) by { assert("gz"@.len() == 2); }
        reveal_strlit("bz2"); assert(e != "bz2"@) by { assert("bz2"@[0] == 'b'); }
        reveal_strlit("xz"); assert(e != "xz"@) by { assert("xz"@.len() == 2); }
        reveal_strlit("iso"); assert(e != "iso"@) by { assert("iso"@[0] == 'i'); }
        reveal_strlit("dmg"); assert(e != "dmg"@) by { assert("dmg"@[0] == 'd'); }
        reveal_strlit("pkg"); assert(e != "pkg"@) by { assert("pkg"@[0] == 'p'); }
        reveal_strlit("tgz"); assert(e != "tgz"@) by { assert("tgz"@[0] == 't'); }
        reveal_strlit("exe"); assert(e != "exe"@) by { assert("exe"@[0] == 'e'); }
        reveal_strlit("msi"); assert(e != "msi"@) by { assert("msi"@[0] == 'm'); }
        reveal_strlit("apk"); assert(e != "apk"@) by { assert("apk"@[0] == 'a'); }
        reveal_strlit("deb"); assert(e != "deb"@) by { assert("deb"@[0] == 'd'); }
        reveal_strlit("rpm"); assert(e != "rpm"@) by { assert("rpm"@[0] == 'r'); }
        reveal_strlit("appimage"); assert(e != "appimage"@) by { assert("appimage"@.len() == 8); }
        reveal_strlit("bat"); assert(e != "bat"@) by { assert("bat"@[0] == 'b'); }
        reveal_strlit("cmd"); assert(e != "cmd"@) by { assert("cmd"@[0] == 'c'); }
        reveal_strlit("ps1"); assert(e != "ps1"@) by { assert("ps1"@[0] == 'p'); }
    }
    if e == "webm"@ {
        reveal_strlit("webm");
        assert(e.len() == 4 && e[0] == 'w' && e[1] == 'e' && e[2] == 'b' && e[3] == 'm');
        reveal_strlit("zip"); assert(e != "zip"@) by { assert("zip"@.len() == 3); }
        reveal_strlit("rar"); assert(e != "rar"@) by { assert("rar"@.len() == 3); }
        reveal_strlit("7z"); assert(e != "7z"@) by { assert("7z"@.len() == 2); }
        reveal_strlit("tar"); assert(e != "tar"@) by { assert("tar"@.len() == 3); }
        reveal_strlit("gz"); assert(e != "gz"@) by { assert("gz"@.len() == 2); }
        reveal_strlit("bz2"); assert(e != "bz2"@) by { assert("bz2"@.len() == 3); }
        reveal_strlit("xz"); assert(e != "xz"@) by { assert("xz"@.len() == 2); }
        reveal_strlit("iso"); assert(e != "iso"@) by { assert("iso"@.len() == 3); }
        reveal_strlit("dmg"); assert(e != "dmg"@) by { assert("dmg"@.len() == 3); }
        reveal_strlit("pkg"); assert(e != "pkg"@) by { assert("pkg"@.len() == 3); }
        reveal_strlit("tgz"); assert(e != "tgz"@) by { assert("tgz"@.len() == 3); }
        reveal_strlit("exe"); assert(e != "exe"@) by { assert("exe"@.len() == 3); }
        reveal_strlit("msi"); assert(e != "msi"@) by { assert("msi"@.len() == 3); }
        reveal_strlit("apk"); assert(e != "apk"@) by { assert("apk"@.len() == 3); }
        reveal_strlit("deb"); assert(e != "deb"@) by { assert("deb"@.len() == 3); }
        reveal_strlit("rpm"); assert(e != "rpm"@) by { assert("rpm"@.len() == 3); }
        reveal_strlit("appimage"); assert(e != "appimage"@) by { assert("appimage"@.len() == 8); }
        reveal_strlit("bat"); assert(e != "bat"@) by { assert("bat"@.len() == 3); }
        reveal_strlit("cmd"); assert(e != "cmd"@) by { assert("cmd"@.len() == 3); }
        reveal_strlit("ps1"); assert(e != "ps1"@) by { assert("ps1"@.len() == 3); }
    }
    if e == "m4v"@ {
        reveal_strlit("m4v");
        assert(e.len() == 3 && e[0] == 'm' && e[1] == '4' && e[2] == 'v');
        reveal_strlit("zip"); assert(e != "zip"@) by { assert("zip"@[0] == 'z'); }
        reveal_strlit("rar"); assert(e != "rar"@) by { assert("rar"@[0] == 'r'); }
        reveal_strlit("7z"); assert(e != "7z"@) by { assert("7z"@.len() == 2); }
        reveal_strlit("tar"); assert(e != "tar"@) by { assert("tar"@[0] == 't'); }
        reveal_strlit("gz"); assert(e != "gz"@) by { assert("gz"@.len() == 2); }
        reveal_strlit("bz2"); assert(e != "bz2"@) by { assert("bz2"@[0] == 'b'); }
        reveal_strlit("xz"); assert(e != "xz"@) by { assert("xz"@.len() == 2); }
        reveal_strlit("iso"); assert(e != "iso"@) by { assert("iso"@[0] == 'i'); }
        reveal_strlit("dmg"); assert(e != "dmg"@) by { assert("dmg"@[0] == 'd'); }
        reveal_strlit("pkg"); assert(e != "pkg"@) by { assert("pkg"@[0] == 'p'); }
        reveal_strlit("tgz"); assert(e != "tgz"@) by { assert("tgz"@[0] == 't'); }
        reveal_strlit("exe"); assert(e != "exe"@) by { assert("exe"@[0] == 'e'); }
        reveal_strlit("msi"); assert(e != "msi"@) by { assert("msi"@[1] == 's'); }
        reveal_strlit("apk"); assert(e != "apk"@) by { assert("apk"@[0] == 'a'); }
        reveal_strlit("deb"); assert(e != "deb"@) by { assert("deb"@[0] == 'd'); }
        reveal_strlit("rpm"); assert(e != "rpm"@) by { assert("rpm"@[0] == 'r'); }
        reveal_strlit("appimage"); assert(e != "appimage"@) by { assert("appimage"@.len() == 8); }
        reveal_strlit("bat"); assert(e != "bat"@) by { assert("bat"@[0] == 'b'); }
        reveal_strlit("cmd"); assert(e != "cmd"@) by { assert("cmd"@[0] == 'c'); }
        reveal_strlit("ps1"); assert(e != "ps1"@) by { assert("ps1"@[0] == 'p'); }
    }
    if e == "m2ts"@ {
        reveal_strlit("m2ts");
        assert(e.len() == 4 && e[0] == 'm' && e[1] == '2' && e[2] == 't' && e[3] == 's');
        reveal_strlit("zip"); assert(e != "zip"@) by { assert("zip"@.len() == 3); }
        reveal_strlit("rar"); assert(e != "rar"@) by { assert("rar"@.len() == 3); }
        reveal_strlit("7z"); assert(e != "7z"@) by { assert("7z"@.len() == 2); }
        reveal_strlit("tar"); assert(e != "tar"@) by { assert("tar"@.len() == 3); }
        reveal_strlit("gz"); assert(e != "gz"@) by { assert("gz"@.len() == 2); }
        reveal_strlit("bz2"); assert(e != "bz2"@) by { assert("bz2"@.len() == 3); }
        reveal_strlit("xz"); assert(e != "xz"@) by { assert("xz"@.len() == 2); }
        reveal_strlit("iso"); assert(e != "iso"@) by { assert("iso"@.len() == 3); }
        reveal_strlit("dmg"); assert(e != "dmg"@) by { assert("dmg"@.len() == 3); }
        reveal_strlit("pkg"); assert(e != "pkg"@) by { assert("pkg"@.len() == 3); }
        reveal_strlit("tgz"); assert(e != "tgz"@) by { assert("tgz"@.len() == 3); }
        reveal_strlit("exe"); assert(e != "exe"@) by { assert("exe"@.len() == 3); }
        reveal_strlit("msi"); assert(e != "msi"@) by { assert("msi"@.len() == 3); }
        reveal_strlit("apk"); assert(e != "apk"@) by { assert("apk"@.len() == 3); }
        reveal_strlit("deb"); assert(e != "deb"@) by { assert("deb"@.len() == 3); }
        reveal_strlit("rpm"); assert(e != "rpm"@) by { assert("rpm"@.len() == 3); }
        reveal_strlit("appimage"); assert(e != "appimage"@) by { assert("appimage"@.len() == 8); }
        reveal_strlit("bat"); assert(e != "bat"@) by { assert("bat"@.len() == 3); }
        reveal_strlit("cmd"); assert(e != "cmd"@) by { assert("cmd"@.len() == 3); }
        reveal_strlit("ps1"); assert(e != "ps1"@) by { assert("ps1"@.len() == 3); }
    }
    if e == "mp3"@ {
        reveal_strlit("mp3");
        assert(e.len() == 3 && e[0] == 'm' && e[1] == 'p' && e[2] == '3');
        reveal_strlit("zip"); assert(e != "zip"@) by { assert("zip"@[0] == 'z'); }
        reveal_strlit("rar"); assert(e != "rar"@) by { assert("rar"@[0] == 'r'); }
        reveal_strlit("7z"); assert(e != "7z"@) by { assert("7z"@.len() == 2); }
        reveal_strlit("tar"); assert(e != "tar"@) by { assert("tar"@[0] == 't'); }
        reveal_strlit("gz"); assert(e != "gz"@) by { assert("gz"@.len() == 2); }
        reveal_strlit("bz2"); assert(e != "bz2"@) by { assert("bz2"@[0] == 'b'); }
        reveal_strlit("xz"); assert(e != "xz"@) by { assert("xz"@.len() == 2); }
        reveal_strlit("iso"); assert(e != "iso"@) by { assert("iso"@[0] == 'i'); }
        reveal_strlit("dmg"); assert(e != "dmg"@) by { assert("dmg"@[0] == 'd'); }
        reveal_strlit("pkg"); assert(e != "pkg"@) by { assert("pkg"@[0] == 'p'); }
        reveal_strlit("tgz"); assert(e != "tgz"@) by { assert("tgz"@[0] == 't'); }
        reveal_strlit("exe"); assert(e != "exe"@) by { assert("exe"@[0] == 'e'); }
        reveal_strlit("msi"); assert(e != "msi"@) by { assert("msi"@[1] == 's'); }
        reveal_strlit("apk"); assert(e != "apk"@) by { assert("apk"@[0] == 'a'); }
        reveal_strlit("deb"); assert(e != "deb"@) by { assert("deb"@[0] == 'd'); }
        reveal_strlit("rpm"); assert(e != "rpm"@) by { assert("rpm"@[0] == 'r'); }
        reveal_strlit("appimage"); assert(e != "appimage"@) by { assert("appimage"@.len() == 8); }
        reveal_strlit("bat"); assert(e != "bat"@) by { assert("bat"@[0] == 'b'); }
        reveal_strlit("cmd"); assert(e != "cmd"@) by { assert("cmd"@[0] == 'c'); }
        reveal_strlit("ps1"); assert(e != "ps1"@) by { assert("ps1"@[0] == 'p'); }
        reveal_strlit("mp4"); assert(e != "mp4"@) by { assert("mp4"@[2] == '4'); }
        reveal_strlit("mkv"); assert(e != "mkv"@) by { assert("mkv"@[1] == 'k'); }
        reveal_strlit("mov"); assert(e != "mov"@) by { assert("mov"@[1] == 'o'); }
        reveal_strlit("avi"); assert(e != "avi"@) by { assert("avi"@[0] == 'a'); }
        reveal_strlit("wmv"); assert(e != "wmv"@) by { assert("wmv"@[0] == 'w'); }
        reveal_strlit("flv"); assert(e != "flv"@) by { assert("flv"@[0] == 'f'); }
        reveal_strlit("webm"); assert(e != "webm"@) by { assert("webm"@.len() == 4); }
        reveal_strlit("m4v"); assert(e != "m4v"@) by { assert("m4v"@[1] == '4'); }
        reveal_strlit("m2ts"); assert(e != "m2ts"@) by { assert("m2ts"@.len() == 4); }
    }
    if e == "wav"@ {
        reveal_strlit("wav");
        assert(e.len() == 3 && e[0] == 'w' && e[1] == 'a' && e[2] == 'v');
        reveal_strlit("zip"); assert(e != "zip"@) by { assert("zip"@[0] == 'z'); }
        reveal_strlit("rar"); assert(e != "rar"@) by { assert("rar"@[0] == 'r'); }
        reveal_strlit("7z"); assert(e != "7z"@) by { assert("7z"@.len() == 2); }
        reveal_strlit("tar"); assert(e != "tar"@) by { assert("tar"@[0] == 't'); }
        reveal_strlit("gz"); assert(e != "gz"@) by { assert("gz"@.len() == 2); }
        reveal_strlit("bz2"); assert(e != "bz2"@) by { assert("bz2"@[0] == 'b'); }
        reveal_strlit("xz"); assert(e != "xz"@) by { assert("xz"@.len() == 2); }
        reveal_strlit("iso"); assert(e != "iso"@) by { assert("iso"@[0] == 'i'); }
        reveal_strlit("dmg"); assert(e != "dmg"@) by { assert("dmg"@[0] == 'd'); }
        reveal_strlit("pkg"); assert(e != "pkg"@) by { assert("pkg"@[0] == 'p'); }
        reveal_strlit("tgz"); assert(e != "tgz"@) by { assert("tgz"@[0] == 't'); }
        reveal_strlit("exe"); assert(e != "exe"@) by { assert("exe"@[0] == 'e'); }
        reveal_strlit("msi"); assert(e != "msi"@) by { assert("msi"@[0] == 'm'); }
        reveal_strlit("apk"); assert(e != "apk"@) by { assert("apk"@[0] == 'a'); }
        reveal_strlit("deb"); assert(e != "deb"@) by { assert("deb"@[0] == 'd'); }
        reveal_strlit("rpm"); assert(e != "rpm"@) by { assert("rpm"@[0] == 'r'); }
        reveal_strlit("appimage"); assert(e != "appimage"@) by { assert("appimage"@.len() == 8); }
        reveal_strlit("bat"); assert(e != "bat"@) by { assert("bat"@[0] == 'b'); }
        reveal_strlit("cmd"); assert(e != "cmd"@) by { assert("cmd"@[0] == 'c'); }
        reveal_strlit("ps1"); assert(e != "ps1"@) by { assert("ps1"@[0] == 'p'); }
        reveal_strlit("mp4"); assert(e != "mp4"@) by { assert("mp4"@[0] == 'm'); }
        reveal_strlit("mkv"); assert(e != "mkv"@) by { assert("mkv"@[0] == 'm'); }
        reveal_strlit("mov"); assert(e != "mov"@) by { assert("mov"@[0] == 'm'); }
        reveal_strlit("avi"); assert(e != "avi"@) by { assert("avi"@[0] == 'a'); }
        reveal_strlit("wmv"); assert(e != "wmv"@) by { assert("wmv"@[1] == 'm'); }
        reveal_strlit("flv"); assert(e != "flv"@) by { assert("flv"@[0] == 'f'); }
        reveal_strlit("webm"); assert(e != "webm"@) by { assert("webm"@.len() == 4); }
        reveal_strlit("m4v"); assert(e != "m4v"@) by { assert("m4v"@[0] == 'm'); }
        reveal_strlit("m2ts"); assert(e != "m2ts"@) by { assert("m2ts"@.len() == 4); }
    }
    if e == "flac"@ {
        reveal_strlit("flac");
        assert(e.len() == 4 && e[0] == 'f' && e[1] == 'l' && e[2] == 'a' && e[3] == 'c');
        reveal_strlit("zip"); assert(e != "zip"@) by { assert("zip"@.len() == 3); }
        reveal_strlit("rar"); assert(e != "rar"@) by { assert("rar"@.len() == 3); }
        reveal_strlit("7z"); assert(e != "7z"@) by { assert("7z"@.len() == 2); }
        reveal_strlit("tar"); assert(e != "tar"@) by { assert("tar"@.len() == 3); }
        reveal_strlit("gz"); assert(e != "gz"@) by { assert("gz"@.len() == 2); }
        reveal_strlit("bz2"); assert(e != "bz2"@) by { assert("bz2"@.len() == 3); }
        reveal_strlit("xz"); assert(e != "xz"@) by { assert("xz"@.len() == 2); }
        reveal_strlit("iso"); assert(e != "iso"@) by { assert("iso"@.len() == 3); }
        reveal_strlit("dmg"); assert(e != "dmg"@) by { assert("dmg"@.len() == 3); }
        reveal_strlit("pkg"); assert(e != "pkg"@) by { assert("pkg"@.len() == 3); }
        reveal_strlit("tgz"); assert(e != "tgz"@) by { assert("tgz"@.len() == 3); }
        reveal_strlit("exe"); assert(e != "exe"@) by { assert("exe"@.len() == 3); }
        reveal_strlit("msi"); assert(e != "msi"@) by { assert("msi"@.len() == 3); }
        reveal_strlit("apk"); assert(e != "apk"@) by { assert("apk"@.len() == 3); }
        reveal_strlit("deb"); assert(e != "deb"@) by { assert("deb"@.len() == 3); }
        reveal_strlit("rpm"); assert(e != "rpm"@) by { assert("rpm"@.len() == 3); }
        reveal_strlit("appimage"); assert(e != "appimage"@) by { assert("appimage"@.len() == 8); }
        reveal_strlit("bat"); assert(e != "bat"@) by { assert("bat"@.len() == 3); }
        reveal_strlit("cmd"); assert(e != "cmd"@) by { assert("cmd"@.len() == 3); }
        reveal_strlit("ps1"); assert(e != "ps1"@) by { assert("ps1"@.len() == 3); }
        reveal_strlit("mp4"); assert(e != "mp4"@) by { assert("mp4"@.len() == 3); }
        reveal_strlit("mkv"); assert(e != "mkv"@) by { assert("mkv"@.len() == 3); }
        reveal_strlit("mov"); assert(e != "mov"@) by { assert("mov"@.len() == 3); }
        reveal_strlit("avi"); assert(e != "avi"@) by { assert("avi"@.len() == 3); }
        reveal_strlit("wmv"); assert(e != "wmv"@) by { assert("wmv"@.len() == 3); }
        reveal_strlit("flv"); assert(e != "flv"@) by { assert("flv"@.len() == 3); }
        reveal_strlit("webm"); assert(e != "webm"@) by { assert("webm"@[0] == 'w'); }
        reveal_strlit("m4v"); assert(e != "m4v"@) by { assert("m4v"@.len() == 3); }
        reveal_strlit("m2ts"); assert(e != "m2ts"@) by { assert("m2ts"@[0] == 'm'); }
    }
    if e == "aac"@ {
        reveal_strlit("aac");
        assert(e.len() == 3 && e[0] == 'a' && e[1] == 'a' && e[2] == 'c');
        reveal_strlit("zip"); assert(e != "zip"@) by { assert("zip"@[0] == 'z'); }
        reveal_strlit("rar"); assert(e != "rar"@) by { assert("rar"@[0] == 'r'); }
        reveal_strlit("7z"); assert(e != "7z"@) by { assert("7z"@.len() == 2); }
        reveal_strlit("tar"); assert(e != "tar"@) by { assert("tar"@[0] == 't'); }
        reveal_strlit("gz"); assert(e != "gz"@) by { assert("gz"@.len() == 2); }
        reveal_strlit("bz2"); assert(e != "bz2"@) by { assert("bz2"@[0] == 'b'); }
        reveal_strlit("xz"); assert(e != "xz"@) by { assert("xz"@.len() == 2); }
        reveal_strlit("iso"); assert(e != "iso"@) by { assert("iso"@[0] == 'i'); }
        reveal_strlit("dmg"); assert(e != "dmg"@) by { assert("dmg"@[0] == 'd'); }
        reveal_strlit("pkg"); assert(e != "pkg"@) by { assert("pkg"@[0] == 'p'); }
        reveal_strlit("tgz"); assert(e != "tgz"@) by { assert("tgz"@[0] == 't'); }
        reveal_strlit("exe"); assert(e != "exe"@) by { assert("exe"@[0] == 'e'); }
        reveal_strlit("msi"); assert(e != "msi"@) by { assert("msi"@[0] == 'm'); }
        reveal_strlit("apk"); assert(e != "apk"@) by { assert("apk"@[1] == 'p'); }
        reveal_strlit("deb"); assert(e != "deb"@) by { assert("deb"@[0] == 'd'); }
        reveal_strlit("rpm"); assert(e != "rpm"@) by { assert("rpm"@[0] == 'r'); }
        reveal_strlit("appimage"); assert(e != "appimage"@) by { assert("appimage"@.len() == 8); }
        reveal_strlit("bat"); assert(e != "bat"@) by { assert("bat"@[0] == 'b'); }
        reveal_strlit("cmd"); assert(e != "cmd"@) by { assert("cmd"@[0] == 'c'); }
        reveal_strlit("ps1"); assert(e != "ps1"@) by { assert("ps1"@[0] == 'p'); }
        reveal_strlit("mp4"); assert(e != "mp4"@) by { assert("mp4"@[0] == 'm'); }
        reveal_strlit("mkv"); assert(e != "mkv"@) by { assert("mkv"@[0] == 'm'); }
        reveal_strlit("mov"); assert(e != "mov"@) by { assert("mov"@[0] == 'm'); }
        reveal_strlit("avi"); assert(e != "avi"@) by { assert("avi"@[1] == 'v'); }
        reveal_strlit("wmv"); assert(e != "wmv"@) by { assert("wmv"@[0] == 'w'); }
        reveal_strlit("flv"); assert(e != "flv"@) by { assert("flv"@[0] == 'f'); }
        reveal_strlit("webm"); assert(e != "webm"@) by { assert("webm"@.len() == 4); }
        reveal_strlit("m4v"); assert(e != "m4v"@) by { assert("m4v"@[0] == 'm'); }
        reveal_strlit("m2ts"); assert(e != "m2ts"@) by { assert("m2ts"@.len() == 4); }
    }
    if e == "ogg"@ {
        reveal_strlit("ogg");
        assert(e.len() == 3 && e[0] == 'o' && e[1] == 'g' && e[2] == 'g');
        reveal_strlit("zip"); assert(e != "zip"@) by { assert("zip"@[0] == 'z'); }
        reveal_strlit("rar"); assert(e != "rar"@) by { assert("rar"@[0] == 'r'); }
        reveal_strlit("7z"); assert(e != "7z"@) by { assert("7z"@.len() == 2); }
        reveal_strlit("tar"); assert(e != "tar"@) by { assert("tar"@[0] == 't'); }
        reveal_strlit("gz"); assert(e != "gz"@) by { assert("gz"@.len() == 2); }
        reveal_strlit("bz2"); assert(e != "bz2"@) by { assert("bz2"@[0] == 'b'); }
        reveal_strlit("xz"); assert(e != "xz"@) by { assert("xz"@.len() == 2); }
        reveal_strlit("iso"); assert(e != "iso"@) by { assert("iso"@[0] == 'i'); }
        reveal_strlit("dmg"); assert(e != "dmg"@) by { assert("dmg"@[0] == 'd'); }
        reveal_strlit("pkg"); assert(e != "pkg"@) by { assert("pkg"@[0] == 'p'); }
        reveal_strlit("tgz"); assert(e != "tgz"@) by { assert("tgz"@[0] == 't'); }
        reveal_strlit("exe"); assert(e != "exe"@) by { assert("exe"@[0] == 'e'); }
        reveal_strlit("msi"); assert(e != "msi"@) by { assert("msi"@[0] == 'm'); }
        reveal_strlit("apk"); assert(e != "apk"@) by { assert("apk"@[0] == 'a'); }
        reveal_strlit("deb"); assert(e != "deb"@) by { assert("deb"@[0] == 'd'); }
        reveal_strlit("rpm"); assert(e != "rpm"@) by { assert("rpm"@[0] == 'r'); }
        reveal_strlit("appimage"); assert(e != "appimage"@) by { assert("appimage"@.len() == 8); }
        reveal_strlit("bat"); assert(e != "bat"@) by { assert("bat"@[0] == 'b'); }
        reveal_strlit("cmd"); assert(e != "cmd"@) by { assert("cmd"@[0] == 'c'); }
        reveal_strlit("ps1"); assert(e != "ps1"@) by { assert("ps1"@[0] == 'p'); }
        reveal_strlit("mp4"); assert(e != "mp4"@) by { assert("mp4"@[0] == 'm'); }
        reveal_strlit("mkv"); assert(e != "mkv"@) by { assert("mkv"@[0] == 'm'); }
        reveal_strlit("mov"); assert(e != "mov"@) by { assert("mov"@[0] == 'm'); }
        reveal_strlit("avi"); assert(e != "avi"@) by { assert("avi"@[0] == 'a'); }
        reveal_strlit("wmv"); assert(e != "wmv"@) by { assert("wmv"@[0] == 'w'); }
        reveal_strlit("flv"); assert(e != "flv"@) by { assert("flv"@[0] == 'f'); }
        reveal_strlit("webm"); assert(e != "webm"@) by { assert("webm"@.len() == 4); }
        reveal_strlit("m4v"); assert(e != "m4v"@) by { assert("m4v"@[0] == 'm'); }
        reveal_strlit("m2ts"); assert(e != "m2ts"@) by { assert("m2ts"@.len() == 4); }
    }
    if e == "m4a"@ {
        reveal_strlit("m4a");
        assert(e.len() == 3 && e[0] == 'm' && e[1] == '4' && e[2] == 'a');
        reveal_strlit("zip"); assert(e != "zip"@) by { assert("zip"@[0] == 'z'); }
        reveal_strlit("rar"); assert(e != "rar"@) by { assert("rar"@[0] == 'r'); }
        reveal_strlit("7z"); assert(e != "7z"@) by { assert("7z"@.len() == 2); }
        reveal_strlit("tar"); assert(e != "tar"@) by { assert("tar"@[0] == 't'); }
        reveal_strlit("gz"); assert(e != "gz"@) by { assert("gz"@.len() == 2); }
        reveal_strlit("bz2"); assert(e != "bz2"@) by { assert("bz2"@[0] == 'b'); }
        reveal_strlit("xz"); assert(e != "xz"@) by { assert("xz"@.len() == 2); }
        reveal_strlit("iso"); assert(e != "iso"@) by { assert("iso"@[0] == 'i'); }
        reveal_strlit("dmg"); assert(e != "dmg"@) by { assert("dmg"@[0] == 'd'); }
        reveal_strlit("pkg"); assert(e != "pkg"@) by { assert("pkg"@[0] == 'p'); }
        reveal_strlit("tgz"); assert(e != "tgz"@) by { assert("tgz"@[0] == 't'); }
        reveal_strlit("exe"); assert(e != "exe"@) by { assert("exe"@[0] == 'e'); }
        reveal_strlit("msi"); assert(e != "msi"@) by { assert("msi"@[1] == 's'); }
        reveal_strlit("apk"); assert(e != "apk"@) by { assert("apk"@[0] == 'a'); }
        reveal_strlit("deb"); assert(e != "deb"@) by { assert("deb"@[0] == 'd'); }
        reveal_strlit("rpm"); assert(e != "rpm"@) by { assert("rpm"@[0] == 'r'); }
        reveal_strlit("appimage"); assert(e != "appimage"@) by { assert("appimage"@.len() == 8); }
        reveal_strlit("bat"); assert(e != "bat"@) by { assert("bat"@[0] == 'b'); }
        reveal_strlit("cmd"); assert(e != "cmd"@) by { assert("cmd"@[0] == 'c'); }
        reveal_strlit("ps1"); assert(e != "ps1"@) by { assert("ps1"@[0] == 'p'); }
        reveal_strlit("mp4"); assert(e != "mp4"@) by { assert("mp4"@[1] == 'p'); }
        reveal_strlit("mkv"); assert(e != "mkv"@) by { assert("mkv"@[1] == 'k'); }
        reveal_strlit("mov"); assert(e != "mov"@) by { assert("mov"@[1] == 'o'); }
        reveal_strlit("avi"); assert(e != "avi"@) by { assert("avi"@[0] == 'a'); }
        reveal_strlit("wmv"); assert(e != "wmv"@) by { assert("wmv"@[0] == 'w'); }
        reveal_strlit("flv"); assert(e != "flv"@) by { assert("flv"@[0] == 'f'); }
        reveal_strlit("webm"); assert(e != "webm"@) by { assert("webm"@.len() == 4); }
        reveal_strlit("m4v"); assert(e != "m4v"@) by { assert("m4v"@[2] == 'v'); }
        reveal_strlit("m2ts"); assert(e != "m2ts"@) by { assert("m2ts"@.len() == 4); }
    }
    if e == "wma"@ {
        reveal_strlit("wma");
        assert(e.len() == 3 && e[0] == 'w' && e[1] == 'm' && e[2] == 'a');
        reveal_strlit("zip"); assert(e != "zip"@) by { assert("zip"@[0] == 'z'); }
        reveal_strlit("rar"); assert(e != "rar"@) by { assert("rar"@[0] == 'r'); }
        reveal_strlit("7z"); assert(e != "7z"@) by { assert("7z"@.len() == 2); }
        reveal_strlit("tar"); assert(e != "tar"@) by { assert("tar"@[0] == 't'); }
        reveal_strlit("gz"); assert(e != "gz"@) by { assert("gz"@.len() == 2); }
        reveal_strlit("bz2"); assert(e != "bz2"@) by { assert("bz2"@[0] == 'b'); }
        reveal_strlit("xz"); assert(e != "xz"@) by { assert("xz"@.len() == 2); }
        reveal_strlit("iso"); assert(e != "iso"@) by { assert("iso"@[0] == 'i'); }
        reveal_strlit("dmg"); assert(e != "dmg"@) by { assert("dmg"@[0] == 'd'); }
        reveal_strlit("pkg"); assert(e != "pkg"@) by { assert("pkg"@[0] == 'p'); }
        reveal_strlit("tgz"); assert(e != "tgz"@) by { assert("tgz"@[0] == 't'); }
        reveal_strlit("exe"); assert(e != "exe"@) by { assert("exe"@[0] == 'e'); }
        reveal_strlit("msi"); assert(e != "msi"@) by { assert("msi"@[0] == 'm'); }
        reveal_strlit("apk"); assert(e != "apk"@) by { assert("apk"@[0] == 'a'); }
        reveal_strlit("deb"); assert(e != "deb"@) by { assert("deb"@[0] == 'd'); }
        reveal_strlit("rpm"); assert(e != "rpm"@) by { assert("rpm"@[0] == 'r'); }
        reveal_strlit("appimage"); assert(e != "appimage"@) by { assert("appimage"@.len() == 8); }
        reveal_strlit("bat"); assert(e != "bat"@) by { assert("bat"@[0] == 'b'); }
        reveal_strlit("cmd"); assert(e != "cmd"@) by { assert("cmd"@[0] == 'c'); }
        reveal_strlit("ps1"); assert(e != "ps1"@) by { assert("ps1"@[0] == 'p'); }
        reveal_strlit("mp4"); assert(e != "mp4"@) by { assert("mp4"@[0] == 'm'); }
        reveal_strlit("mkv"); assert(e != "mkv"@) by { assert("mkv"@[0] == 'm'); }
        reveal_strlit("mov"); assert(e != "mov"@) by { assert("mov"@[0] == 'm'); }
        reveal_strlit("avi"); assert(e != "avi"@) by { assert("avi"@[0] == 'a'); }
        reveal_strlit("wmv"); assert(e != "wmv"@) by { assert("wmv"@[2] == 'v'); }
        reveal_strlit("flv"); assert(e != "flv"@) by { assert("flv"@[0] == 'f'); }
        reveal_strlit("webm"); assert(e != "webm"@) by { assert("webm"@.len() == 4); }
        reveal_strlit("m4v"); assert(e != "m4v"@) by { assert("m4v"@[0] == 'm'); }
        reveal_strlit("m2ts"); assert(e != "m2ts"@) by { assert("m2ts"@.len() == 4); }
    }
    if e == "opus"@ {
        reveal_strlit("opus");
        assert(e.len() == 4 && e[0] == 'o' && e[1] == 'p' && e[2] == 'u' && e[3] == 's');
        reveal_strlit("zip"); assert(e != "zip"@) by { assert("zip"@.len() == 3); }
        reveal_strlit("rar"); assert(e != "rar"@) by { assert("rar"@.len() == 3); }
        reveal_strlit("7z"); assert(e != "7z"@) by { assert("7z"@.len() == 2); }
        reveal_strlit("tar"); assert(e != "tar"@) by { assert("tar"@.len() == 3); }
        reveal_strlit("gz"); assert(e != "gz"@) by { assert("gz"@.len() == 2); }
        reveal_strlit("bz2"); assert(e != "bz2"@) by { assert("bz2"@.len() == 3); }
        reveal_strlit("xz"); assert(e != "xz"@) by { assert("xz"@.len() == 2); }
        reveal_strlit("iso"); assert(e != "iso"@) by { assert("iso"@.len() == 3); }
        reveal_strlit("dmg"); assert(e != "dmg"@) by { assert("dmg"@.len() == 3); }
        reveal_strlit("pkg"); assert(e != "pkg"@) by { assert("pkg"@.len() == 3); }
        reveal_strlit("tgz"); assert(e != "tgz"@) by { assert("tgz"@.len() == 3); }
        reveal_strlit("exe"); assert(e != "exe"@) by { assert("exe"@.len() == 3); }
        reveal_strlit("msi"); assert(e != "msi"@) by { assert("msi"@.len() == 3); }
        reveal_strlit("apk"); assert(e != "apk"@) by { assert("apk"@.len() == 3); }
        reveal_strlit("deb"); assert(e != "deb"@) by { assert("deb"@.len() == 3); }
        reveal_strlit("rpm"); assert(e != "rpm"@) by { assert("rpm"@.len() == 3); }
        reveal_strlit("appimage"); assert(e != "appimage"@) by { assert("appimage"@.len() == 8); }
        reveal_strlit("bat"); assert(e != "bat"@) by { assert("bat"@.len() == 3); }
        reveal_strlit("cmd"); assert(e != "cmd"@) by { assert("cmd"@.len() == 3); }
        reveal_strlit("ps1"); assert(e != "ps1"@) by { assert("ps1"@.len() == 3); }
        reveal_strlit("mp4"); assert(e != "mp4"@) by { assert("mp4"@.len() == 3); }
        reveal_strlit("mkv"); assert(e != "mkv"@) by { assert("mkv"@.len() == 3); }
        reveal_strlit("mov"); assert(e != "mov"@) by { assert("mov"@.len() == 3); }
        reveal_strlit("avi"); assert(e != "avi"@) by { assert("avi"@.len() == 3); }
        reveal_strlit("wmv"); assert(e != "wmv"@) by { assert("wmv"@.len() == 3); }
        reveal_strlit("flv"); assert(e != "flv"@) by { assert("flv"@.len() == 3); }
        reveal_strlit("webm"); assert(e != "webm"@) by { assert("webm"@[0] == 'w'); }
        reveal_strlit("m4v"); assert(e != "m4v"@) by { assert("m4v"@.len() == 3); }
        reveal_strlit("m2ts"); assert(e != "m2ts"@) by { assert("m2ts"@[0] == 'm'); }
    }
}

/// The folder each category goes to, named by folder or by label:
/// compressed files under `Compressed`, installers under `Programs`,
/// videos under `Video`, audio under `Music`, documents under `Documents`,
/// images under `Pictures`, and anything else under `Documents`; always
/// below the profile's (or the default profile's) `Downloads`.
pub proof fn lemma_category_folders(cat: Seq<char>, profile: Option<Seq<char>>)
    ensures
        cat == "Compressed"@ || cat == "compressed"@ ==> category_subfolder(cat) == "Compressed"@,
        cat == "Programs"@ || cat == "installer"@ ==> category_subfolder(cat) == "Programs"@,
        cat == "Video"@ || cat == "video"@ ==> category_subfolder(cat) == "Video"@,
        cat == "Music"@ || cat == "audio"@ ==> category_subfolder(cat) == "Music"@,
        cat == "Documents"@ || cat == "document"@ ==> category_subfolder(cat) == "Documents"@,
        cat == "Pictures"@ || cat == "image"@ ==> category_subfolder(cat) == "Pictures"@,
        cat != "Compressed"@ && cat != "compressed"@ && cat != "Programs"@ && cat != "installer"@ && cat != "Video"@ && cat != "video"@ && cat != "Music"@ && cat != "audio"@ && cat != "Documents"@ && cat != "document"@ && cat != "Pictures"@ && cat != "image"@ ==> category_subfolder(cat) == "Documents"@,
        category_folder(cat, profile) == match profile {
            Some(p) => p,
            None => "C:\\Users\\Default"@,
        } + "\\Downloads"@ + "\\"@ + category_subfolder(cat),
{
    if cat == "Compressed"@ {
        reveal_strlit("Compressed");
        assert(cat.len() == 10 && cat[0] == 'C' && cat[1] == 'o' && cat[2] == 'm' && cat[3] == 'p' && cat[4] == 'r' && cat[5] == 'e' && cat[6] == 's' && cat[7] == 's' && cat[8] == 'e' && cat[9] == 'd');
    }
    if cat == "compressed"@ {
        reveal_strlit("compressed");
        assert(cat.len() == 10 && cat[0] == 'c' && cat[1] == 'o' && cat[2] == 'm' && cat[3] == 'p' && cat[4] == 'r' && cat[5] == 'e' && cat[6] == 's' && cat[7] == 's' && cat[8] == 'e' && cat[9] == 'd');
    }
    if cat == "Programs"@ {
        reveal_strlit("Programs");
        assert(cat.len() == 8 && cat[0] == 'P' && cat[1] == 'r' && cat[2] == 'o' && cat[3] == 'g' && cat[4] == 'r' && cat[5] == 'a' && cat[6] == 'm' && cat[7] == 's');
        reveal_strlit("Compressed"); assert(cat != "Compressed"@) by { assert("Compressed"@.len() == 10); }
        reveal_strlit("compressed"); assert(cat != "compressed"@) by { assert("compressed"@.len() == 10); }
    }
    if cat == "installer"@ {
        reveal_strlit("installer");
        assert(cat.len() == 9 && cat[0] == 'i' && cat[1] == 'n' && cat[2] == 's' && cat[3] == 't' && cat[4] == 'a' && cat[5] == 'l' && cat[6] == 'l' && cat[7] == 'e' && cat[8] == 'r');
        reveal_strlit("Compressed"); assert(cat != "Compressed"@) by { assert("Compressed"@.len() == 10); }
        reveal_strlit("compressed"); assert(cat != "compressed"@) by { assert("compressed"@.len() == 10); }
    }
    if cat == "Video"@ {
        reveal_strlit("Video");
        assert(cat.len() == 5 && cat[0] == 'V' && cat[1] == 'i' && cat[2] == 'd' && cat[3] == 'e' && cat[4] == 'o');
        reveal_strlit("Compressed"); assert(cat != "Compressed"@) by { assert("Compressed"@.len() == 10); }
        reveal_strlit("compressed"); assert(cat != "compressed"@) by { assert("compressed"@.len() == 10); }
        reveal_strlit("Programs"); assert(cat != "Programs"@) by { assert("Programs"@.len() == 8); }
        reveal_strlit("installer"); assert(cat != "installer"@) by { assert("installer"@.len() == 9); }
    }
    if cat == "video"@ {
        reveal_strlit("video");
        assert(cat.len() == 5 && cat[0] == 'v' && cat[1] == 'i' && cat[2] == 'd' && cat[3] == 'e' && cat[4] == 'o');
        reveal_strlit("Compressed"); assert(cat != "Compressed"@) by { assert("Compressed"@.len() == 10); }
        reveal_strlit("compressed"); assert(cat != "compressed"@) by { assert("compressed"@.len() == 10); }
        reveal_strlit("Programs"); assert(cat != "Programs"@) by { assert("Programs"@.len() == 8); }
        reveal_strlit("installer"); assert(cat != "installer"@) by { assert("installer"@.len() == 9); }
    }
    if cat == "Music"@ {
        reveal_strlit("Music");
        assert(cat.len() == 5 && cat[0] == 'M' && cat[1] == 'u' && cat[2] == 's' && cat[3] == 'i' && cat[4] == 'c');
        reveal_strlit("Compressed"); assert(cat != "Compressed"@) by { assert("Compressed"@.len() == 10); }
        reveal_strlit("compressed"); assert(cat != "compressed"@) by { assert("compressed"@.len() == 10); }
        reveal_strlit("Programs"); assert(cat != "Programs"@) by { assert("Programs"@.len() == 8); }
        reveal_strlit("installer"); assert(cat != "installer"@) by { assert("installer"@.len() == 9); }
        reveal_strlit("Video"); assert(cat != "Video"@) by { assert("Video"@[0] == 'V'); }
        reveal_strlit("video"); assert(cat != "video"@) by { assert("video"@[0] == 'v'); }
    }
    if cat == "audio"@ {
        reveal_strlit("audio");
        assert(cat.len() == 5 && cat[0] == 'a' && cat[1] == 'u' && cat[2] == 'd' && cat[3] == 'i' && cat[4] == 'o');
        reveal_strlit("Compressed"); assert(cat != "Compressed"@) by { assert("Compressed"@.len() == 10); }
        reveal_strlit("compressed"); assert(cat != "compressed"@) by { assert("compressed"@.len() == 10); }
        reveal_strlit("Programs"); assert(cat != "Programs"@) by { assert("Programs"@.len() == 8); }
        reveal_strlit("installer"); assert(cat != "installer"@) by { assert("installer"@.len() == 9); }
        reveal_strlit("Video"); assert(cat != "Video"@) by { assert("Video"@[0] == 'V'); }
        reveal_strlit("video"); assert(cat != "video"@) by { assert("video"@[0] == 'v'); }
    }
    if cat == "Documents"@ {
        reveal_strlit("Documents");
        assert(cat.len() == 9 && cat[0] == 'D' && cat[1] == 'o' && cat[2] == 'c' && cat[3] == 'u' && cat[4] == 'm' && cat[5] == 'e' && cat[6] == 'n' && cat[7] == 't' && cat[8] == 's');
        reveal_strlit("Compressed"); assert(cat != "Compressed"@) by { assert("Compressed"@.len() == 10); }
        reveal_strlit("compressed"); assert(cat != "compressed"@) by { assert("compressed"@.len() == 10); }
        reveal_strlit("Programs"); assert(cat != "Programs"@) by { assert("Programs"@.len() == 8); }
        reveal_strlit("installer"); assert(cat != "installer"@) by { assert("installer"@[0] == 'i'); }
        reveal_strlit("Video"); assert(cat != "Video"@) by { assert("Video"@.len() == 5); }
        reveal_strlit("video"); assert(cat != "video"@) by { assert("video"@.len() == 5); }
        reveal_strlit("Music"); assert(cat != "Music"@) by { assert("Music"@.len() == 5); }
        reveal_strlit("audio"); assert(cat != "audio"@) by { assert("audio"@.len() == 5); }
    }
    if cat == "document"@ {
        reveal_strlit("document");
        assert(cat.len() == 8 && cat[0] == 'd' && cat[1] == 'o' && cat[2] == 'c' && cat[3] == 'u' && cat[4] == 'm' && cat[5] == 'e' && cat[6] == 'n' && cat[7] == 't');
        reveal_strlit("Compressed"); assert(cat != "Compressed"@) by { assert("Compressed"@.len() == 10); }
        reveal_strlit("compressed"); assert(cat != "compressed"@) by { assert("compressed"@.len() == 10); }
        reveal_strlit("Programs"); assert(cat != "Programs"@) by { assert("Programs"@[0] == 'P'); }
        reveal_strlit("installer"); assert(cat != "installer"@) by { assert("installer"@.len() == 9); }
        reveal_strlit("Video"); assert(cat != "Video"@) by { assert("Video"@.len() == 5); }
        reveal_strlit("video"); assert(cat != "video"@) by { assert("video"@.len() == 5); }
        reveal_strlit("Music"); assert(cat != "Music"@) by { assert("Music"@.len() == 5); }
        reveal_strlit("audio"); assert(cat != "audio"@) by { assert("audio"@.len() == 5); }
    }
    if cat == "Pictures"@ {
        reveal_strlit("Pictures");
        assert(cat.len() == 8 && cat[0] == 'P' && cat[1] == 'i' && cat[2] == 'c' && cat[3] == 't' && cat[4] == 'u' && cat[5] == 'r' && cat[6] == 'e' && cat[7] == 's');
        reveal_strlit("Compressed"); assert(cat != "Compressed"@) by { assert("Compressed"@.len() == 10); }
        reveal_strlit("compressed"); assert(cat != "compressed"@) by { assert("compressed"@.len() == 10); }
        reveal_strlit("Programs"); assert(cat != "Programs"@) by { assert("Programs"@[1] == 'r'); }
        reveal_strlit("installer"); assert(cat != "installer"@) by { assert("installer"@.len() == 9); }
        reveal_strlit("Video"); assert(cat != "Video"@) by { assert("Video"@.len() == 5); }
        reveal_strlit("video"); assert(cat != "video"@) by { assert("video"@.len() == 5); }
        reveal_strlit("Music"); assert(cat != "Music"@) by { assert("Music"@.len() == 5); }
        reveal_strlit("audio"); assert(cat != "audio"@) by { assert("audio"@.len() == 5); }
        reveal_strlit("Documents"); assert(cat != "Documents"@) by { assert("Documents"@.len() == 9); }
        reveal_strlit("document"); assert(cat != "document"@) by { assert("document"@[0] == 'd'); }
    }
    if cat == "image"@ {
        reveal_strlit("image");
        assert(cat.len() == 5 && cat[0] == 'i' && cat[1] == 'm' && cat[2] == 'a' && cat[3] == 'g' && cat[4] == 'e');
        reveal_strlit("Compressed"); assert(cat != "Compressed"@) by { assert("Compressed"@.len() == 10); }
        reveal_strlit("compressed"); assert(cat != "compressed"@) by { assert("compressed"@.len() == 10); }
        reveal_strlit("Programs"); assert(cat != "Programs"@) by { assert("Programs"@.len() == 8); }
        reveal_strlit("installer"); assert(cat != "installer"@) by { assert("installer"@.len() == 9); }
        reveal_strlit("Video"); assert(cat != "Video"@) by { assert("Video"@[0] == 'V'); }
        reveal_strlit("video"); assert(cat != "video"@) by { assert("video"@[0] == 'v'); }
        reveal_strlit("Music"); assert(cat != "Music"@) by { assert("Music"@[0] == 'M'); }
        reveal_strlit("audio"); assert(cat != "audio"@) by { assert("audio"@[0] == 'a'); }
        reveal_strlit("Documents"); assert(cat != "Documents"@) by { assert("Documents"@.len() == 9); }
        reveal_strlit("document"); assert(cat != "document"@) by { assert("document"@.len() == 8); }
    }
}

} // verus!
