//! Where the specification shown by the UI comes from, and the configuration
//! that points the UI at it.

use vstd::prelude::*;
use crate::config::{Config, same_options};
use crate::text::{
    ends_with_text, find_last, has_suffix, join2, last_index_of, lemma_last_index_bounds,
    same_text, trim_end_slashes, trim_trailing_slashes,
};

verus! {

/// A specification file served next to the UI.
#[derive(Debug, Clone)]
pub struct Spec {
    /// The declared name of the file; the route serves it under its last segment.
    pub name: String,
    /// The bytes of the file, served unchanged.
    pub content: Vec<u8>,
}

/// The specification that the UI shows: a file served next to it, or a url
/// that the UI fetches by itself.
#[derive(Debug, Clone)]
pub enum SpecOrUrl {
    Spec(Spec),
    Url(String),
}

impl From<Spec> for SpecOrUrl {
    fn from(spec: Spec) -> (r: SpecOrUrl)
        ensures
            r == SpecOrUrl::Spec(spec),
    {
        SpecOrUrl::Spec(spec)
    }
}

impl vstd::std_specs::convert::FromSpecImpl<Spec> for SpecOrUrl {
    open spec fn obeys_from_spec() -> bool {
        true
    }

    open spec fn from_spec(spec: Spec) -> SpecOrUrl {
        SpecOrUrl::Spec(spec)
    }
}

/// The last `/`-separated segment of a name.
pub open spec fn last_segment(s: Seq<char>) -> Seq<char> {
    s.subrange(last_index_of(s, '/') + 1, s.len() as int)
}

/// Whether a name has a usable file name: its last segment is neither empty
/// nor `.` nor `..`.
pub open spec fn has_file_name(s: Seq<char>) -> bool {
    let seg = last_segment(s);
    seg.len() != 0 && seg != "."@ && seg != ".."@
}

/// The name under which a specification file is served: the last segment of
/// its declared name, or `None` where that segment is empty, `.` or `..`.
pub fn file_name(name: &str) -> (r: Option<&str>)
    ensures
        r is Some <==> has_file_name(name@),
        r matches Some(f) ==> f@ == last_segment(name@),
{
    proof {
        lemma_last_index_bounds(name@, '/');
    }
    let n = name.unicode_len();
    let start = match find_last(name, '/') {
        Some(k) => k + 1,
        None => 0,
    };
    let seg = name.substring_char(start, n);
    if seg.unicode_len() == 0 || same_text(seg, ".") || same_text(seg, "..") {
        None
    } else {
        Some(seg)
    }
}

/// The name of the configuration document's route.
pub open spec fn config_file_name() -> Seq<char> {
    "swagger-ui-config.json"@
}

/// The name of the configuration document's route.
pub fn config_file() -> (r: &'static str)
    ensures
        r@ == config_file_name(),
{
    "swagger-ui-config.json"
}

/// The mount prefix seen in the path of a request for the configuration
/// document: the path without the document's name and without trailing `/`.
pub open spec fn mount_prefix_of(path: Seq<char>) -> Seq<char> {
    let p = if has_suffix(path, config_file_name()) {
        path.subrange(0, path.len() - config_file_name().len())
    } else {
        path
    };
    trim_trailing_slashes(p)
}

/// The mount prefix seen in the path of a request for the configuration document.
pub fn mount_prefix(request_path: &str) -> (r: &str)
    ensures
        r@ == mount_prefix_of(request_path@),
{
    let doc = config_file();
    let p = if ends_with_text(request_path, doc) {
        let n = request_path.unicode_len();
        request_path.substring_char(0, n - doc.unicode_len())
    } else {
        request_path
    };
    trim_end_slashes(p)
}

/// The `url` that the served configuration holds: where the UI fetches the
/// specification, given the mount prefix of the request.
pub open spec fn spec_url_of(prefix: Seq<char>, source: SpecOrUrl) -> Seq<char> {
    match source {
        SpecOrUrl::Spec(s) => prefix + "/"@ + last_segment(s.name@),
        SpecOrUrl::Url(u) => u@,
    }
}

/// Whether a source can be served: an embedded file needs a file name.
pub open spec fn source_is_valid(source: SpecOrUrl) -> bool {
    match source {
        SpecOrUrl::Spec(s) => has_file_name(s.name@),
        SpecOrUrl::Url(_) => true,
    }
}

/// Where the UI fetches the specification, given the mount prefix.
pub fn spec_url(prefix: &str, source: &SpecOrUrl) -> (r: String)
    requires
        source_is_valid(*source),
    ensures
        r@ == spec_url_of(prefix@, *source),
{
    match source {
        SpecOrUrl::Spec(s) => {
            let name = file_name(s.name.as_str()).unwrap();
            let mut r = join2(prefix, "/");
            r.append(name);
            r
        },
        SpecOrUrl::Url(u) => u.clone(),
    }
}

/// The configuration served under the given mount prefix: `base` with its `url`
/// pointing at the specification, everything else unchanged.
pub fn resolve_config(base: &Config, prefix: &str, source: &SpecOrUrl) -> (r: Config)
    requires
        source_is_valid(*source),
    ensures
        r.url@ == spec_url_of(prefix@, *source),
        same_options(r, *base),
{
    base.with_url(spec_url(prefix, source))
}

} // verus!
