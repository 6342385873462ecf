//! File kinds: the extension tables that sort downloads into folders,
//! types and categories, and the lower-cased extension they are read by.
use vstd::prelude::*;
use crate::text::{chars_of, eq_lit, to_lowercase, unicode_lower, ext_rule, plain_name, path_extension};

verus! {

/// The lower-cased extension of a file name, empty when it has none
/// (`Path::extension`, then `to_lowercase`).
pub open spec fn lower_ext(name: Seq<char>) -> Seq<char> {
    match ext_rule(name) {
        Some(e) => unicode_lower(e),
        None => Seq::empty(),
    }
}

/// The lower-cased extension as read by `Path::extension`; of a name that
/// is not plain (see `plain_name`) the platform decides what the extension
/// is, and only that the result is lower-cased text or empty is stated.
pub fn lower_extension(name: &str) -> (r: Vec<char>)
    ensures
        plain_name(name@) ==> r@ == lower_ext(name@),
        r@.len() == 0 || exists|e: Seq<char>| r@ == unicode_lower(e),
{
    match path_extension(name) {
        Some(e) => {
            let l = to_lowercase(e.as_str());
            chars_of(l.as_str())
        },
        None => Vec::new(),
    }
}

/// Extensions of archives and disk images.
pub open spec fn compressed_ext(e: Seq<char>) -> bool {
    ||| e == "zip"@
    ||| e == "rar"@
    ||| e == "7z"@
    ||| e == "tar"@
    ||| e == "gz"@
    ||| e == "bz2"@
    ||| e == "xz"@
    ||| e == "iso"@
    ||| e == "dmg"@
    ||| e == "pkg"@
    ||| e == "tgz"@
}

pub fn is_compressed_ext(e: &Vec<char>) -> (r: bool)
    ensures
        r == compressed_ext(e@),
{
    eq_lit(e, "zip") || eq_lit(e, "rar") || eq_lit(e, "7z") || eq_lit(e, "tar") || eq_lit(e, "gz") || eq_lit(e, "bz2") || eq_lit(e, "xz") || eq_lit(e, "iso") || eq_lit(e, "dmg") || eq_lit(e, "pkg") || eq_lit(e, "tgz")
}

/// Extensions of installers and scripts.
pub open spec fn program_ext(e: Seq<char>) -> bool {
    ||| e == "exe"@
    ||| e == "msi"@
    ||| e == "apk"@
    ||| e == "deb"@
    ||| e == "rpm"@
    ||| e == "appimage"@
    ||| e == "bat"@
    ||| e == "cmd"@
    ||| e == "ps1"@
}

pub fn is_program_ext(e: &Vec<char>) -> (r: bool)
    ensures
        r == program_ext(e@),
{
    eq_lit(e, "exe") || eq_lit(e, "msi") || eq_lit(e, "apk") || eq_lit(e, "deb") || eq_lit(e, "rpm") || eq_lit(e, "appimage") || eq_lit(e, "bat") || eq_lit(e, "cmd") || eq_lit(e, "ps1")
}

/// Extensions of video containers.
pub open spec fn video_ext(e: Seq<char>) -> bool {
    ||| e == "mp4"@
    ||| e == "mkv"@
    ||| e == "mov"@
    ||| e == "avi"@
    ||| e == "wmv"@
    ||| e == "flv"@
    ||| e == "webm"@
    ||| e == "m4v"@
    ||| e == "m2ts"@
}

pub fn is_video_ext(e: &Vec<char>) -> (r: bool)
    ensures
        r == video_ext(e@),
{
    eq_lit(e, "mp4") || eq_lit(e, "mkv") || eq_lit(e, "mov") || eq_lit(e, "avi") || eq_lit(e, "wmv") || eq_lit(e, "flv") || eq_lit(e, "webm") || eq_lit(e, "m4v") || eq_lit(e, "m2ts")
}

/// Extensions of audio formats.
pub open spec fn music_ext(e: Seq<char>) -> bool {
    ||| e == "mp3"@
    ||| e == "wav"@
    ||| e == "flac"@
    ||| e == "aac"@
    ||| e == "ogg"@
    ||| e == "m4a"@
    ||| e == "wma"@
    ||| e == "opus"@
}

pub fn is_music_ext(e: &Vec<char>) -> (r: bool)
    ensures
        r == music_ext(e@),
{
    eq_lit(e, "mp3") || eq_lit(e, "wav") || eq_lit(e, "flac") || eq_lit(e, "aac") || eq_lit(e, "ogg") || eq_lit(e, "m4a") || eq_lit(e, "wma") || eq_lit(e, "opus")
}

/// Extensions of documents.
pub open spec fn document_ext(e: Seq<char>) -> bool {
    ||| e == "pdf"@
    ||| e == "doc"@
    ||| e == "docx"@
    ||| e == "xls"@
    ||| e == "xlsx"@
    ||| e == "ppt"@
    ||| e == "pptx"@
    ||| e == "txt"@
    ||| e == "epub"@
    ||| e == "md"@
}

pub fn is_document_ext(e: &Vec<char>) -> (r: bool)
    ensures
        r == document_ext(e@),
{
    eq_lit(e, "pdf") || eq_lit(e, "doc") || eq_lit(e, "docx") || eq_lit(e, "xls") || eq_lit(e, "xlsx") || eq_lit(e, "ppt") || eq_lit(e, "pptx") || eq_lit(e, "txt") || eq_lit(e, "epub") || eq_lit(e, "md")
}

/// Extensions of images.
pub open spec fn picture_ext(e: Seq<char>) -> bool {
    ||| e == "png"@
    ||| e == "jpg"@
    ||| e == "jpeg"@
    ||| e == "gif"@
    ||| e == "webp"@
    ||| e == "svg"@
    ||| e == "bmp"@
    ||| e == "ico"@
    ||| e == "tiff"@
}

pub fn is_picture_ext(e: &Vec<char>) -> (r: bool)
    ensures
        r == picture_ext(e@),
{
    eq_lit(e, "png") || eq_lit(e, "jpg") || eq_lit(e, "jpeg") || eq_lit(e, "gif") || eq_lit(e, "webp") || eq_lit(e, "svg") || eq_lit(e, "bmp") || eq_lit(e, "ico") || eq_lit(e, "tiff")
}

/// Extensions of source and data files.
pub open spec fn code_ext(e: Seq<char>) -> bool {
    ||| e == "rs"@
    ||| e == "js"@
    ||| e == "ts"@
    ||| e == "py"@
    ||| e == "c"@
    ||| e == "cpp"@
    ||| e == "h"@
    ||| e == "html"@
    ||| e == "css"@
    ||| e == "json"@
    ||| e == "xml"@
    ||| e == "toml"@
    ||| e == "yaml"@
}

pub fn is_code_ext(e: &Vec<char>) -> (r: bool)
    ensures
        r == code_ext(e@),
{
    eq_lit(e, "rs") || eq_lit(e, "js") || eq_lit(e, "ts") || eq_lit(e, "py") || eq_lit(e, "c") || eq_lit(e, "cpp") || eq_lit(e, "h") || eq_lit(e, "html") || eq_lit(e, "css") || eq_lit(e, "json") || eq_lit(e, "xml") || eq_lit(e, "toml") || eq_lit(e, "yaml")
}

/// Extensions of video, as a torrent listing names it.
pub open spec fn torrent_video_ext(e: Seq<char>) -> bool {
    ||| e == "mp4"@
    ||| e == "mkv"@
    ||| e == "avi"@
    ||| e == "mov"@
    ||| e == "webm"@
    ||| e == "wmv"@
    ||| e == "flv"@
    ||| e == "ts"@
}

pub fn is_torrent_video_ext(e: &Vec<char>) -> (r: bool)
    ensures
        r == torrent_video_ext(e@),
{
    eq_lit(e, "mp4") || eq_lit(e, "mkv") || eq_lit(e, "avi") || eq_lit(e, "mov") || eq_lit(e, "webm") || eq_lit(e, "wmv") || eq_lit(e, "flv") || eq_lit(e, "ts")
}

/// Extensions of audio, as a torrent listing names it.
pub open spec fn torrent_audio_ext(e: Seq<char>) -> bool {
    ||| e == "mp3"@
    ||| e == "flac"@
    ||| e == "wav"@
    ||| e == "m4a"@
    ||| e == "aac"@
    ||| e == "ogg"@
    ||| e == "opus"@
}

pub fn is_torrent_audio_ext(e: &Vec<char>) -> (r: bool)
    ensures
        r == torrent_audio_ext(e@),
{
    eq_lit(e, "mp3") || eq_lit(e, "flac") || eq_lit(e, "wav") || eq_lit(e, "m4a") || eq_lit(e, "aac") || eq_lit(e, "ogg") || eq_lit(e, "opus")
}

/// Extensions of archives, as a torrent listing names it.
pub open spec fn torrent_archive_ext(e: Seq<char>) -> bool {
    ||| e == "zip"@
    ||| e == "rar"@
    ||| e == "7z"@
    ||| e == "tar"@
    ||| e == "gz"@
    ||| e == "iso"@
}

pub fn is_torrent_archive_ext(e: &Vec<char>) -> (r: bool)
    ensures
        r == torrent_archive_ext(e@),
{
    eq_lit(e, "zip") || eq_lit(e, "rar") || eq_lit(e, "7z") || eq_lit(e, "tar") || eq_lit(e, "gz") || eq_lit(e, "iso")
}

/// Extensions of installers, as a torrent listing names it.
pub open spec fn torrent_installer_ext(e: Seq<char>) -> bool {
    ||| e == "exe"@
    ||| e == "msi"@
    ||| e == "apk"@
    ||| e == "dmg"@
}

pub fn is_torrent_installer_ext(e: &Vec<char>) -> (r: bool)
    ensures
        r == torrent_installer_ext(e@),
{
    eq_lit(e, "exe") || eq_lit(e, "msi") || eq_lit(e, "apk") || eq_lit(e, "dmg")
}

/// Extensions of images, as a torrent listing names it.
pub open spec fn torrent_image_ext(e: Seq<char>) -> bool {
    ||| e == "jpg"@
    ||| e == "jpeg"@
    ||| e == "png"@
    ||| e == "webp"@
    ||| e == "gif"@
    ||| e == "svg"@
}

pub fn is_torrent_image_ext(e: &Vec<char>) -> (r: bool)
    ensures
        r == torrent_image_ext(e@),
{
    eq_lit(e, "jpg") || eq_lit(e, "jpeg") || eq_lit(e, "png") || eq_lit(e, "webp") || eq_lit(e, "gif") || eq_lit(e, "svg")
}

} // verus!
