//! The configuration document: the JSON object that tells the UI how to display
//! itself and where to fetch the specification.
//!
//! Field names are written in lower camel case; `url` and `urls` are left out
//! when empty and `maxDisplayedTags` when zero.

use vstd::prelude::*;
use crate::config::{Config, DefaultModelRendering, DocExpansion, Filter, UrlObject, is_zero};

verus! {

/// The JSON string literal that stands for a text (quotes and escapes included).
pub uninterp spec fn json_string_of(s: Seq<char>) -> Seq<char>;

/// Relies on `serde_json::to_string` applied to a `str`: it writes the text as a
/// JSON string literal, and writing into its in-memory buffer cannot fail, so the
/// error arm is never taken.
#[verifier::external_body]
fn quoted(s: &str) -> (r: String)
    ensures
        r@ == json_string_of(s@),
{
    match serde_json::to_string(s) {
        Ok(t) => t,
        Err(_) => String::new(),
    }
}

/// The character of a decimal digit.
pub open spec fn digit_char(d: nat) -> char {
    if d == 0 { '0' }
    else if d == 1 { '1' }
    else if d == 2 { '2' }
    else if d == 3 { '3' }
    else if d == 4 { '4' }
    else if d == 5 { '5' }
    else if d == 6 { '6' }
    else if d == 7 { '7' }
    else if d == 8 { '8' }
    else { '9' }
}

/// The decimal digits of a natural number, without leading zeros.
pub open spec fn digits_of(n: nat) -> Seq<char>
    decreases n,
{
    if n < 10 {
        seq![digit_char(n)]
    } else {
        digits_of(n / 10).push(digit_char(n % 10))
    }
}

/// The decimal form of an integer, with a `-` in front when it is negative.
pub open spec fn decimal_of(n: int) -> Seq<char> {
    if n < 0 {
        seq!['-'] + digits_of((-n) as nat)
    } else {
        digits_of(n as nat)
    }
}

/// Relies on `ToString` of `i64` (through its `Display`): the decimal form of
/// the number, with a leading `-` when negative.
#[verifier::external_body]
fn decimal(n: i64) -> (r: String)
    ensures
        r@ == decimal_of(n as int),
{
    n.to_string()
}

pub open spec fn bool_text(b: bool) -> Seq<char> {
    if b { "true"@ } else { "false"@ }
}

pub open spec fn rendering_text(m: DefaultModelRendering) -> Seq<char> {
    match m {
        DefaultModelRendering::Example => "\"example\""@,
        DefaultModelRendering::Model => "\"model\""@,
    }
}

pub open spec fn expansion_text(d: DocExpansion) -> Seq<char> {
    match d {
        DocExpansion::List => "\"list\""@,
        DocExpansion::Full => "\"full\""@,
        DocExpansion::Collapsed => "\"none\""@,
    }
}

pub open spec fn filter_text(f: Filter) -> Seq<char> {
    match f {
        Filter::Bool(b) => bool_text(b),
        Filter::Str(s) => json_string_of(s@),
    }
}

/// A named url as a JSON object.
pub open spec fn url_object_text(u: UrlObject) -> Seq<char> {
    "{\"name\":"@ + json_string_of(u.name@) + ",\"url\":"@ + json_string_of(u.url@) + "}"@
}

/// The named urls as JSON objects separated by commas.
pub open spec fn url_list_text(v: Seq<UrlObject>) -> Seq<char>
    decreases v.len(),
{
    if v.len() == 0 {
        Seq::empty()
    } else if v.len() == 1 {
        url_object_text(v[0])
    } else {
        url_list_text(v.drop_last()) + ","@ + url_object_text(v.last())
    }
}

/// The `url` member with its comma, or nothing when `url` is empty.
pub open spec fn url_member(c: Config) -> Seq<char> {
    if c.url@.len() == 0 {
        Seq::empty()
    } else {
        "\"url\":"@ + json_string_of(c.url@) + ","@
    }
}

/// The `urls` member with its comma, or nothing when `urls` is empty.
pub open spec fn urls_member(c: Config) -> Seq<char> {
    if c.urls@.len() == 0 {
        Seq::empty()
    } else {
        "\"urls\":["@ + url_list_text(c.urls@) + "],"@
    }
}

/// The `maxDisplayedTags` member with its comma, or nothing when the limit is zero.
pub open spec fn tags_member(c: Config) -> Seq<char> {
    if c.max_displayed_tags == 0 {
        Seq::empty()
    } else {
        ",\"maxDisplayedTags\":"@ + decimal_of(c.max_displayed_tags as int)
    }
}

/// The whole configuration document of `c`.
pub open spec fn config_document(c: Config) -> Seq<char> {
    "{"@ + url_member(c) + members_after_url(c)
}

/// The members of the document of `c` that follow `url`, and its closing brace.
pub open spec fn members_after_url(c: Config) -> Seq<char> {
    urls_member(c)
        + "\"deepLinking\":"@ + bool_text(c.deep_linking)
        + ",\"displayOperationId\":"@ + bool_text(c.display_operation_id)
        + ",\"defaultModelsExpandDepth\":"@ + decimal_of(c.default_models_expand_depth as int)
        + ",\"defaultModelExpandDepth\":"@ + decimal_of(c.default_model_expand_depth as int)
        + ",\"defaultModelRendering\":"@ + rendering_text(c.default_model_rendering)
        + ",\"displayRequestDuration\":"@ + bool_text(c.display_request_duration)
        + ",\"docExpansion\":"@ + expansion_text(c.doc_expansion)
        + ",\"filter\":"@ + filter_text(c.filter)
        + tags_member(c)
        + ",\"showExtensions\":"@ + bool_text(c.show_extensions)
        + ",\"showCommonExtensions\":"@ + bool_text(c.show_common_extensions)
        + "}"@
}

fn bool_json(b: bool) -> (r: &'static str)
    ensures
        r@ == bool_text(b),
{
    if b { "true" } else { "false" }
}

fn url_object_json(u: &UrlObject) -> (r: String)
    ensures
        r@ == url_object_text(*u),
{
    let mut r = String::from_str("{\"name\":");
    r.append(quoted(u.name.as_str()).as_str());
    r.append(",\"url\":");
    r.append(quoted(u.url.as_str()).as_str());
    r.append("}");
    r
}

fn url_list_json(v: &Vec<UrlObject>) -> (r: String)
    ensures
        r@ == url_list_text(v@),
{
    let mut r = String::new();
    let mut i: usize = 0;
    while i < v.len()
        invariant
            i <= v@.len(),
            r@ == url_list_text(v@.subrange(0, i as int)),
        decreases v@.len() - i,
    {
        let ghost before = v@.subrange(0, i as int);
        assert(v@.subrange(0, i + 1).drop_last() =~= before);
        if i > 0 {
            r.append(",");
        }
        r.append(url_object_json(&v[i]).as_str());
        i = i + 1;
        proof {
            if before.len() == 0 {
                assert(r@ =~= url_list_text(v@.subrange(0, i as int)));
            }
        }
    }
    assert(v@.subrange(0, v@.len() as int) =~= v@);
    r
}

fn url_member_json(c: &Config) -> (r: String)
    ensures
        r@ == url_member(*c),
{
    if c.url.as_str().is_empty() {
        String::new()
    } else {
        let mut r = String::from_str("\"url\":");
        r.append(quoted(c.url.as_str()).as_str());
        r.append(",");
        r
    }
}

fn urls_member_json(c: &Config) -> (r: String)
    ensures
        r@ == urls_member(*c),
{
    if c.urls.len() == 0 {
        String::new()
    } else {
        let mut r = String::from_str("\"urls\":[");
        r.append(url_list_json(&c.urls).as_str());
        r.append("],");
        r
    }
}

fn tags_member_json(c: &Config) -> (r: String)
    ensures
        r@ == tags_member(*c),
{
    if is_zero(&c.max_displayed_tags) {
        String::new()
    } else {
        let mut r = String::from_str(",\"maxDisplayedTags\":");
        r.append(decimal(c.max_displayed_tags as i64).as_str());
        r
    }
}

fn rendering_json(m: DefaultModelRendering) -> (r: &'static str)
    ensures
        r@ == rendering_text(m),
{
    match m {
        DefaultModelRendering::Example => "\"example\"",
        DefaultModelRendering::Model => "\"model\"",
    }
}

fn expansion_json(d: DocExpansion) -> (r: &'static str)
    ensures
        r@ == expansion_text(d),
{
    match d {
        DocExpansion::List => "\"list\"",
        DocExpansion::Full => "\"full\"",
        DocExpansion::Collapsed => "\"none\"",
    }
}

fn filter_json(f: &Filter) -> (r: String)
    ensures
        r@ == filter_text(*f),
{
    match f {
        Filter::Bool(b) => String::from_str(bool_json(*b)),
        Filter::Str(s) => quoted(s.as_str()),
    }
}

/// The configuration document of `c`, as the UI reads it.
pub fn config_json(c: &Config) -> (r: String)
    ensures
        r@ == config_document(*c),
{
    let mut r = String::from_str("{");
    r.append(url_member_json(c).as_str());
    r.append(members_after_url_json(c).as_str());
    r
}

fn members_after_url_json(c: &Config) -> (r: String)
    ensures
        r@ == members_after_url(*c),
{
    let mut r = urls_member_json(c);
    r.append("\"deepLinking\":");
    r.append(bool_json(c.deep_linking));
    r.append(",\"displayOperationId\":");
    r.append(bool_json(c.display_operation_id));
    r.append(",\"defaultModelsExpandDepth\":");
    r.append(decimal(c.default_models_expand_depth as i64).as_str());
    r.append(",\"defaultModelExpandDepth\":");
    r.append(decimal(c.default_model_expand_depth as i64).as_str());
    r.append(",\"defaultModelRendering\":");
    r.append(rendering_json(c.default_model_rendering));
    r.append(",\"displayRequestDuration\":");
    r.append(bool_json(c.display_request_duration));
    r.append(",\"docExpansion\":");
    r.append(expansion_json(c.doc_expansion));
    r.append(",\"filter\":");
    r.append(filter_json(&c.filter).as_str());
    r.append(tags_member_json(c).as_str());
    r.append(",\"showExtensions\":");
    r.append(bool_json(c.show_extensions));
    r.append(",\"showCommonExtensions\":");
    r.append(bool_json(c.show_common_extensions));
    r.append("}");
    r
}

} // verus!
