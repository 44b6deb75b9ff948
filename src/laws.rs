//! What holds of every answer that `SwaggerUi::respond` gives.

use vstd::prelude::*;
use crate::config::Config;
use crate::config::same_options;
use crate::document::{config_document, json_string_of, members_after_url};
use vstd::seq_lib::lemma_concat_associative;
use crate::mime::mime_of_name;
use crate::routes::{Response, SwaggerUi, json_type, response_of};
use crate::source::{config_file_name, last_segment, mount_prefix_of, spec_url_of};
use crate::text::{trim_leading_slashes, trim_trailing_slashes};

verus! {

/// A request for the mount root without a query is redirected to the entry page
/// under the request's path stripped of trailing `/`, with a `configUrl`
/// parameter naming the configuration document under that same prefix.
pub proof fn lemma_root_redirects_with_config_url(
    ui: SwaggerUi,
    path: Seq<char>,
    request_path: Seq<char>,
    r: Response,
)
    requires
        trim_leading_slashes(path).len() == 0,
        response_of(ui, path, request_path, None, r),
    ensures
        ({
            let p = trim_trailing_slashes(request_path);
            r matches Response::Redirect { location } && location@ == p + "/index.html"@
                + "?configUrl="@ + p + "/"@ + config_file_name()
        }),
{
}

/// A request for the mount root with a query is redirected to the entry page
/// with that query kept as it was, and no `configUrl` parameter added.
pub proof fn lemma_root_redirect_keeps_query(
    ui: SwaggerUi,
    path: Seq<char>,
    request_path: Seq<char>,
    query: Seq<char>,
    r: Response,
)
    requires
        trim_leading_slashes(path).len() == 0,
        response_of(ui, path, request_path, Some(query), r),
    ensures
        r matches Response::Redirect { location } && location@ == trim_trailing_slashes(
            request_path,
        ) + "/index.html"@ + "?"@ + query,
{
}

/// The configuration document is always served as JSON; for an embedded
/// specification its first member is `url`, naming the file under the prefix
/// of the request.
pub proof fn lemma_config_document_points_at_spec(
    ui: SwaggerUi,
    path: Seq<char>,
    request_path: Seq<char>,
    query: Option<Seq<char>>,
    r: Response,
)
    requires
        trim_leading_slashes(path) == config_file_name(),
        response_of(ui, path, request_path, query, r),
    ensures
        r matches Response::Document { content_type, text } && content_type@ == json_type(),
        ui.source() is Spec ==> (r matches Response::Document { text, .. } && exists|rest: Seq<
            char,
        >|
            text@ == "{"@ + "\"url\":"@ + json_string_of(
                mount_prefix_of(request_path) + "/"@ + last_segment(ui.source()->Spec_0.name@),
            ) + ","@ + rest),
{
    reveal_strlit("swagger-ui-config.json");
    assert(trim_leading_slashes(path).len() != 0);
    if ui.source() is Spec {
        reveal_strlit("/");
        let text = r->Document_text;
        let c = choose|c: Config|
            c.url@ == spec_url_of(mount_prefix_of(request_path), ui.source()) && same_options(
                c,
                ui.config(),
            ) && text@ == config_document(c);
        let u = c.url@;
        assert(u.len() > 0);
        let rest = members_after_url(c);
        lemma_concat_associative("{"@, "\"url\":"@ + json_string_of(u) + ","@, rest);
        lemma_concat_associative("{"@, "\"url\":"@ + json_string_of(u), ","@);
        lemma_concat_associative("{"@, "\"url\":"@, json_string_of(u));
    }
}

/// The embedded specification is served under its file name with exactly the
/// bytes it was made with, typed by its extension.
pub proof fn lemma_spec_served_verbatim(
    ui: SwaggerUi,
    path: Seq<char>,
    request_path: Seq<char>,
    query: Option<Seq<char>>,
    r: Response,
)
    requires
        ui.source() is Spec,
        trim_leading_slashes(path) == last_segment(ui.source()->Spec_0.name@),
        last_segment(ui.source()->Spec_0.name@) != config_file_name(),
        ui.wf(),
        response_of(ui, path, request_path, query, r),
    ensures
        r matches Response::Content { content_type, body } && content_type@ == mime_of_name(
            ui.source()->Spec_0.name@,
        ) && body@ == ui.source()->Spec_0.content@,
{
}

/// Every file of the bundle is served under its path with exactly its bytes,
/// typed by its extension, unless the configuration document or the
/// specification file is served under that path.
pub proof fn lemma_asset_served_verbatim(
    ui: SwaggerUi,
    i: int,
    request_path: Seq<char>,
    query: Option<Seq<char>>,
    r: Response,
)
    requires
        ui.wf(),
        0 <= i < ui.assets()@.len(),
        ui.assets()@[i].0 != config_file_name(),
        ui.source() is Spec ==> ui.assets()@[i].0 != last_segment(ui.source()->Spec_0.name@),
        response_of(ui, ui.assets()@[i].0, request_path, query, r),
    ensures
        r matches Response::Content { content_type, body } && content_type@ == mime_of_name(
            ui.assets()@[i].0,
        ) && body@ == ui.assets()@[i].1,
{
    let p = ui.assets()@[i].0;
    assert(crate::assets::is_bundle_path(ui.assets()@[i].0));
    assert(trim_leading_slashes(p) == p);
    assert(ui.assets().contains(p));
}

} // verus!
