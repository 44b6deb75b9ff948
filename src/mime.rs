//! The content type of a served file, from the extension of its name.

use vstd::prelude::*;
use crate::text::{find_last, last_index_of, lemma_last_index_bounds, same_text};

verus! {

/// What follows the last `.` of a file name; empty when the name holds no `.`.
pub open spec fn extension_of(s: Seq<char>) -> Seq<char> {
    if last_index_of(s, '.') < 0 {
        Seq::empty()
    } else {
        s.subrange(last_index_of(s, '.') + 1, s.len() as int)
    }
}

/// The type served for content whose kind is not known.
pub open spec fn octet_stream() -> Seq<char> {
    "application/octet-stream"@
}

/// The content type that belongs to an extension.
pub open spec fn mime_of_extension(e: Seq<char>) -> Seq<char> {
    if e == "html"@ {
        "text/html"@
    } else if e == "js"@ {
        "application/javascript"@
    } else if e == "css"@ {
        "text/css"@
    } else if e == "png"@ {
        "image/png"@
    } else if e == "json"@ {
        "application/json"@
    } else {
        octet_stream()
    }
}

/// The content type served for a file of the given name.
pub open spec fn mime_of_name(name: Seq<char>) -> Seq<char> {
    mime_of_extension(extension_of(name))
}

/// The part of `filename` after its last `.`, or the empty text where it has none.
pub fn extension(filename: &str) -> (r: &str)
    ensures
        r@ == extension_of(filename@),
{
    let n = filename.unicode_len();
    match find_last(filename, '.') {
        Some(d) => {
            proof {
                lemma_last_index_bounds(filename@, '.');
            }
            filename.substring_char(d + 1, n)
        },
        None => filename.substring_char(n, n),
    }
}

/// The content type for an extension: the known ones of the UI bundle and of
/// specification files, and a generic binary type for every other one.
pub fn mime_for_extension(ext: &str) -> (r: &'static str)
    ensures
        r@ == mime_of_extension(ext@),
{
    if same_text(ext, "html") {
        "text/html"
    } else if same_text(ext, "js") {
        "application/javascript"
    } else if same_text(ext, "css") {
        "text/css"
    } else if same_text(ext, "png") {
        "image/png"
    } else if same_text(ext, "json") {
        "application/json"
    } else {
        "application/octet-stream"
    }
}

/// The content type served for a file of the given name.
pub fn content_type(filename: &str) -> (r: &'static str)
    ensures
        r@ == mime_of_name(filename@),
{
    mime_for_extension(extension(filename))
}

} // verus!
