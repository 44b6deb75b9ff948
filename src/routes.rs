//! The route table: which paths below the mount prefix are served, and what
//! each request for them is answered with.
//!
//! Every answer depends on the request's path and query and on values fixed
//! when the table is made; nothing is shared or changed between requests.

use vstd::prelude::*;
use crate::assets::SwaggerUiAssets;
use crate::config::Config;
use crate::document::{config_document, config_json};
use crate::mime::{content_type, mime_of_name};
use crate::redirect::{index_location, index_location_of, opt_text};
use crate::source::{
    SpecOrUrl, config_file, config_file_name, file_name, last_segment, mount_prefix,
    mount_prefix_of, resolve_config, source_is_valid, spec_url_of,
};
use crate::config::same_options;
use crate::text::{same_text, trim_leading_slashes, trim_start_slashes};

verus! {

/// What a route serves.
#[derive(Debug, Clone, Copy, PartialEq, Eq, Structural)]
pub enum Endpoint {
    /// The mount root, which redirects to the UI's entry page.
    Index,
    /// The configuration document.
    ConfigDocument,
    /// The embedded specification file.
    SpecDocument,
    /// A file of the asset bundle.
    Asset,
}

/// A path below the mount prefix (without leading `/`) and what it serves.
#[derive(Debug)]
pub struct Route {
    pub path: String,
    pub endpoint: Endpoint,
}

/// The answer to a request.
#[derive(Debug)]
pub enum Response {
    /// A permanent redirect (status 308) to `location`.
    Redirect { location: String },
    /// Bytes served with a content type.
    Content { content_type: String, body: Vec<u8> },
    /// A text document served with a content type.
    Document { content_type: String, text: String },
    /// Nothing is served at the path; the host framework answers as it does for
    /// any unknown path.
    NotFound,
}

impl Response {
    /// The HTTP status of the answer: 308 for the redirect, 200 for content,
    /// 404 where nothing is served.
    pub fn status(&self) -> (r: u16)
        ensures
            r == match self {
                Response::Redirect { .. } => 308u16,
                Response::NotFound => 404u16,
                _ => 200u16,
            },
    {
        match self {
            Response::Redirect { .. } => 308,
            Response::NotFound => 404,
            _ => 200,
        }
    }
}

/// The content type of the configuration document.
pub open spec fn json_type() -> Seq<char> {
    "application/json"@
}

/// The UI with its bundle, the specification it shows and its configuration.
#[derive(Debug)]
pub struct SwaggerUi {
    assets: SwaggerUiAssets,
    source: SpecOrUrl,
    config: Config,
}

/// The answer owed to a request for `path` below the mount prefix, where the
/// request's own path is `request_path` and its query `query`.
pub open spec fn response_of(
    ui: SwaggerUi,
    path: Seq<char>,
    request_path: Seq<char>,
    query: Option<Seq<char>>,
    r: Response,
) -> bool {
    let rel = trim_leading_slashes(path);
    if rel.len() == 0 {
        r matches Response::Redirect { location } && location@ == index_location_of(
            request_path,
            query,
        )
    } else if rel == config_file_name() {
        r matches Response::Document { content_type, text } && content_type@ == json_type()
            && exists|c: Config|
            c.url@ == spec_url_of(mount_prefix_of(request_path), ui.source())
                && same_options(c, ui.config()) && text@ == config_document(c)
    } else if ui.source() is Spec && rel == last_segment(ui.source()->Spec_0.name@) {
        r matches Response::Content { content_type, body } && content_type@ == mime_of_name(
            ui.source()->Spec_0.name@,
        ) && body@ == ui.source()->Spec_0.content@
    } else if ui.assets().contains(rel) {
        r matches Response::Content { content_type, body } && content_type@ == mime_of_name(rel)
            && forall|i: int|
            0 <= i < ui.assets()@.len() && #[trigger] ui.assets()@[i].0 == rel ==> body@
                == ui.assets()@[i].1
    } else {
        r is NotFound
    }
}

/// A copy of a list of bytes.
fn copy_bytes(v: &Vec<u8>) -> (r: Vec<u8>)
    ensures
        r@ == v@,
{
    let r = v.clone();
    assert(r@ =~= v@);
    r
}

impl SwaggerUi {
    #[verifier::type_invariant]
    spec fn servable(self) -> bool {
        source_is_valid(self.source)
    }

    pub closed spec fn assets(&self) -> SwaggerUiAssets {
        self.assets
    }

    pub closed spec fn source(&self) -> SpecOrUrl {
        self.source
    }

    pub closed spec fn config(&self) -> Config {
        self.config
    }

    /// Whether the bundle is well formed and the specification can be served.
    pub open spec fn wf(&self) -> bool {
        self.assets().wf() && source_is_valid(self.source())
    }

    /// The UI serving `assets`, showing `source` and configured by `config`;
    /// `None` where `source` is a file whose declared name has no file name.
    pub fn new(assets: SwaggerUiAssets, source: SpecOrUrl, config: Config) -> (r: Option<Self>)
        ensures
            r is Some <==> source_is_valid(source),
            r matches Some(ui) ==> ui.wf() && ui.assets() == assets && ui.source() == source
                && ui.config() == config,
    {
        proof {
            use_type_invariant(&assets);
        }
        let valid = match &source {
            SpecOrUrl::Spec(s) => file_name(s.name.as_str()).is_some(),
            SpecOrUrl::Url(_) => true,
        };
        if valid {
            Some(SwaggerUi { assets, source, config })
        } else {
            None
        }
    }

    /// The routes served below the mount prefix: the mount root, the
    /// configuration document, the specification file where one is embedded,
    /// then every file of the bundle, in the bundle's order.
    pub fn routes(&self) -> (r: Vec<Route>)
        ensures
            self.wf(),
            ({
                let k: int = if self.source() is Spec { 3 } else { 2 };
                &&& r@.len() == k + self.assets()@.len()
                &&& r@[0].path@.len() == 0 && r@[0].endpoint == Endpoint::Index
                &&& r@[1].path@ == config_file_name() && r@[1].endpoint == Endpoint::ConfigDocument
                &&& self.source() is Spec ==> r@[2].path@ == last_segment(
                    self.source()->Spec_0.name@,
                ) && r@[2].endpoint == Endpoint::SpecDocument
                &&& forall|i: int|
                    0 <= i < self.assets()@.len() ==> (#[trigger] r@[k + i]).path@
                        == self.assets()@[i].0 && r@[k + i].endpoint == Endpoint::Asset
            }),
    {
        proof {
            use_type_invariant(self);
            use_type_invariant(&self.assets);
        }
        let mut r: Vec<Route> = Vec::new();
        r.push(Route { path: String::new(), endpoint: Endpoint::Index });
        r.push(Route { path: config_file().to_owned(), endpoint: Endpoint::ConfigDocument });
        match &self.source {
            SpecOrUrl::Spec(s) => {
                let name = file_name(s.name.as_str()).unwrap();
                r.push(Route { path: name.to_owned(), endpoint: Endpoint::SpecDocument });
            },
            SpecOrUrl::Url(_) => {},
        }
        let ghost k: int = r@.len() as int;
        let paths = self.assets.paths();
        let mut i: usize = 0;
        while i < paths.len()
            invariant
                k == (if self.source() is Spec { 3int } else { 2int }),
                paths@.len() == self.assets()@.len(),
                forall|j: int| 0 <= j < paths@.len() ==> #[trigger] paths@[j]@ == self.assets()@[j].0,
                i <= paths@.len(),
                r@.len() == k + i,
                r@[0].path@.len() == 0 && r@[0].endpoint == Endpoint::Index,
                r@[1].path@ == config_file_name() && r@[1].endpoint == Endpoint::ConfigDocument,
                self.source() is Spec ==> r@[2].path@ == last_segment(self.source()->Spec_0.name@)
                    && r@[2].endpoint == Endpoint::SpecDocument,
                forall|j: int|
                    0 <= j < i ==> (#[trigger] r@[k + j]).path@ == self.assets()@[j].0
                        && r@[k + j].endpoint == Endpoint::Asset,
            decreases paths@.len() - i,
        {
            r.push(Route { path: paths[i].clone(), endpoint: Endpoint::Asset });
            i = i + 1;
        }
        r
    }

    /// The answer to a request for `path` below the mount prefix; `request_path`
    /// is the whole path of the request and `query` its query string, if any.
    pub fn respond(&self, path: &str, request_path: &str, query: Option<&str>) -> (r: Response)
        ensures
            self.wf(),
            response_of(*self, path@, request_path@, opt_text(query), r),
    {
        proof {
            use_type_invariant(self);
            use_type_invariant(&self.assets);
        }
        let rel = trim_start_slashes(path);
        if rel.unicode_len() == 0 {
            return Response::Redirect { location: index_location(request_path, query) };
        }
        if same_text(rel, config_file()) {
            let c = resolve_config(&self.config, mount_prefix(request_path), &self.source);
            let text = config_json(&c);
            return Response::Document { content_type: "application/json".to_owned(), text };
        }
        match &self.source {
            SpecOrUrl::Spec(s) => {
                let name = file_name(s.name.as_str()).unwrap();
                if same_text(rel, name) {
                    return Response::Content {
                        content_type: content_type(s.name.as_str()).to_owned(),
                        body: copy_bytes(&s.content),
                    };
                }
            },
            SpecOrUrl::Url(_) => {},
        }
        match self.assets.get(rel) {
            Some(bytes) => Response::Content {
                content_type: content_type(rel).to_owned(),
                body: copy_bytes(bytes),
            },
            None => Response::NotFound,
        }
    }
}

} // verus!
