//! The content type of a file, read off the extension of its name.

use crate::path::components;
use crate::text::{same_text, split_fields, to_chars, Separator};
use vstd::prelude::*;

verus! {

/// The greatest position before `j` at which `name` holds a `.`, or -1.
pub open spec fn last_dot(name: Seq<char>, j: int) -> int
    decreases j,
{
    if j <= 0 || j > name.len() {
        -1
    } else if name[j - 1] == '.' {
        j - 1
    } else {
        last_dot(name, j - 1)
    }
}

/// The extension of the file that `path` names: what follows the last `.`
/// of the last component. There is none when the path has no components,
/// when the last component is `..`, when it holds no `.`, or when its only
/// `.` is its first character.
pub open spec fn extension(path: Seq<char>) -> Option<Seq<char>> {
    let parts = components(path);
    if parts.len() == 0 {
        None
    } else {
        let name = parts.last();
        let d = last_dot(name, name.len() as int);
        if d <= 0 || name == seq!['.', '.'] {
            None
        } else {
            Some(name.skip(d + 1))
        }
    }
}

/// The content type served for a file extension. Extensions are compared
/// exactly, so `HTML` is not `html`; an unknown one is served as plain text.
pub open spec fn mime_for(ext: Seq<char>) -> Seq<char> {
    if ext == "html"@ || ext == "htm"@ {
        "text/html"@
    } else if ext == "js"@ {
        "application/javascript"@
    } else if ext == "css"@ {
        "text/css"@
    } else if ext == "png"@ {
        "image/png"@
    } else if ext == "jpg"@ || ext == "jpeg"@ {
        "image/jpeg"@
    } else if ext == "ico"@ {
        "image/x-icon"@
    } else if ext == "gif"@ {
        "image/gif"@
    } else if ext == "webp"@ {
        "image/webp"@
    } else if ext == "svg"@ {
        "image/svg+xml"@
    } else if ext == "json"@ {
        "application/json"@
    } else if ext == "xml"@ {
        "application/xml"@
    } else if ext == "pdf"@ {
        "application/pdf"@
    } else if ext == "zip"@ {
        "application/zip"@
    } else if ext == "gz"@ {
        "application/gzip"@
    } else if ext == "7z"@ {
        "application/x-7z-compressed"@
    } else if ext == "rar"@ {
        "application/x-rar-compressed"@
    } else if ext == "tar"@ {
        "application/x-tar"@
    } else if ext == "mp3"@ {
        "audio/mpeg"@
    } else if ext == "mp4"@ {
        "video/mp4"@
    } else if ext == "webm"@ {
        "video/webm"@
    } else if ext == "mpeg"@ {
        "video/mpeg"@
    } else if ext == "m4a"@ {
        "audio/mp4"@
    } else if ext == "ogg"@ || ext == "oga"@ {
        "audio/ogg"@
    } else if ext == "wav"@ {
        "audio/wav"@
    } else if ext == "woff"@ {
        "font/woff"@
    } else if ext == "woff2"@ {
        "font/woff2"@
    } else if ext == "ttf"@ {
        "font/ttf"@
    } else if ext == "otf"@ {
        "font/otf"@
    } else if ext == "eot"@ {
        "application/vnd.ms-fontobject"@
    } else {
        "text/plain"@
    }
}

/// The content type served for the file that `path` names.
pub open spec fn mime_type(path: Seq<char>) -> Seq<char> {
    match extension(path) {
        Some(ext) => mime_for(ext),
        None => "text/plain"@,
    }
}

/// Looks up the content type for a file extension.
pub fn content_type_for_extension(ext: &str) -> (r: &'static str)
    ensures
        r@ == mime_for(ext@),
{
    if same_text(ext, "html") || same_text(ext, "htm") {
        "text/html"
    } else if same_text(ext, "js") {
        "application/javascript"
    } else if same_text(ext, "css") {
        "text/css"
    } else if same_text(ext, "png") {
        "image/png"
    } else if same_text(ext, "jpg") || same_text(ext, "jpeg") {
        "image/jpeg"
    } else if same_text(ext, "ico") {
        "image/x-icon"
    } else if same_text(ext, "gif") {
        "image/gif"
    } else if same_text(ext, "webp") {
        "image/webp"
    } else if same_text(ext, "svg") {
        "image/svg+xml"
    } else if same_text(ext, "json") {
        "application/json"
    } else if same_text(ext, "xml") {
        "application/xml"
    } else if same_text(ext, "pdf") {
        "application/pdf"
    } else if same_text(ext, "zip") {
        "application/zip"
    } else if same_text(ext, "gz") {
        "application/gzip"
    } else if same_text(ext, "7z") {
        "application/x-7z-compressed"
    } else if same_text(ext, "rar") {
        "application/x-rar-compressed"
    } else if same_text(ext, "tar") {
        "application/x-tar"
    } else if same_text(ext, "mp3") {
        "audio/mpeg"
    } else if same_text(ext, "mp4") {
        "video/mp4"
    } else if same_text(ext, "webm") {
        "video/webm"
    } else if same_text(ext, "mpeg") {
        "video/mpeg"
    } else if same_text(ext, "m4a") {
        "audio/mp4"
    } else if same_text(ext, "ogg") || same_text(ext, "oga") {
        "audio/ogg"
    } else if same_text(ext, "wav") {
        "audio/wav"
    } else if same_text(ext, "woff") {
        "font/woff"
    } else if same_text(ext, "woff2") {
        "font/woff2"
    } else if same_text(ext, "ttf") {
        "font/ttf"
    } else if same_text(ext, "otf") {
        "font/otf"
    } else if same_text(ext, "eot") {
        "application/vnd.ms-fontobject"
    } else {
        "text/plain"
    }
}

/// Infers the content type of the file that `path` names from its extension.
pub fn content_type(path: &str) -> (r: &'static str)
    ensures
        r@ == mime_type(path@),
{
    let parts = split_fields(path, Separator::Slash);
    if parts.len() == 0 {
        return "text/plain";
    }
    let name = parts[parts.len() - 1].as_str();
    let chars = to_chars(name);
    let n = chars.len();
    let mut j: usize = n;
    while j > 0 && chars[j - 1] != '.'
        invariant
            j <= n,
            n == chars@.len(),
            last_dot(chars@, j as int) == last_dot(chars@, n as int),
        decreases j,
    {
        j -= 1;
    }
    if j <= 1 {
        return "text/plain";
    }
    if n == 2 && chars[0] == '.' {
        assert(chars@ == seq!['.', '.']);
        return "text/plain";
    }
    content_type_for_extension(name.substring_char(j, n))
}

} // verus!
