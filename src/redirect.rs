//! Redirects from the mount root to the UI's entry page.

use vstd::prelude::*;
use crate::source::{config_file, config_file_name};
use crate::text::{join2, trim_end_slashes, trim_leading_slashes, trim_start_slashes, trim_trailing_slashes};

verus! {

/// The view of an optional text.
pub open spec fn opt_text(q: Option<&str>) -> Option<Seq<char>> {
    match q {
        Some(t) => Some(t@),
        None => None,
    }
}

/// Where a request for the mount root at `path` is sent: the entry page under
/// the path without its trailing `/`, followed by the request's own query, or,
/// where it had none, by a `configUrl` parameter naming the configuration
/// document under the same prefix.
pub open spec fn index_location_of(path: Seq<char>, query: Option<Seq<char>>) -> Seq<char> {
    let p = trim_trailing_slashes(path);
    match query {
        Some(q) => p + "/index.html"@ + "?"@ + q,
        None => p + "/index.html"@ + "?configUrl="@ + p + "/"@ + config_file_name(),
    }
}

/// The target of the redirect answered to a request for the mount root.
pub fn index_location(path: &str, query: Option<&str>) -> (r: String)
    ensures
        r@ == index_location_of(path@, opt_text(query)),
{
    let p = trim_end_slashes(path);
    let mut r = join2(p, "/index.html");
    match query {
        Some(q) => {
            r.append("?");
            r.append(q);
        },
        None => {
            r.append("?configUrl=");
            r.append(p);
            r.append("/");
            r.append(config_file());
        },
    }
    r
}

/// A handler that, instead of serving content, always redirects to a fixed
/// destination below the base of its route.
#[derive(Debug)]
pub struct RedirectHandler {
    dest: String,
}

impl RedirectHandler {
    /// The destination, relative to the route's base, without leading `/`.
    pub closed spec fn dest_view(&self) -> Seq<char> {
        self.dest@
    }

    /// Create a new `RedirectHandler` that redirects to the specified url.
    pub fn to(dest: &str) -> (r: Self)
        ensures
            r.dest_view() == trim_leading_slashes(dest@),
    {
        RedirectHandler { dest: trim_start_slashes(dest).to_owned() }
    }

    /// The destination, relative to the route's base.
    pub fn dest(&self) -> (r: &str)
        ensures
            r@ == self.dest_view(),
    {
        self.dest.as_str()
    }

    /// The target of the redirect for a route whose base is `base`: the base
    /// without trailing `/`, a `/`, and the destination.
    pub fn location(&self, base: &str) -> (r: String)
        ensures
            r@ == trim_trailing_slashes(base@) + "/"@ + self.dest_view(),
    {
        let mut r = join2(trim_end_slashes(base), "/");
        r.append(self.dest.as_str());
        r
    }
}

} // verus!
