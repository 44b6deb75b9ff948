//! The UI's configuration: display options and where to fetch specifications.

use vstd::prelude::*;

verus! {

/// Contains a named url.
#[derive(Debug, Clone)]
pub struct UrlObject {
    /// The name of the url.
    pub name: String,
    /// The url itself.
    pub url: String,
}

impl UrlObject {
    /// Create a new `UrlObject` from the provided name and url.
    pub fn new(name: &str, url: &str) -> (r: Self)
        ensures
            r.name@ == name@,
            r.url@ == url@,
    {
        UrlObject { name: name.to_owned(), url: url.to_owned() }
    }

    /// A copy of this named url.
    pub fn duplicate(&self) -> (r: Self)
        ensures
            r == *self,
    {
        UrlObject { name: self.name.clone(), url: self.url.clone() }
    }
}

/// Used to control the way models are displayed by default.
#[derive(Debug, Clone, Copy, PartialEq, Eq, Structural)]
pub enum DefaultModelRendering {
    /// Expand the `example` section.
    Example,
    /// Expand the `model` section.
    Model,
}

/// Used to control the default expansion setting for the operations and tags.
#[derive(Debug, Clone, Copy, PartialEq, Eq, Structural)]
pub enum DocExpansion {
    /// Expands only the tags.
    List,
    /// Expands the tags and operations
    Full,
    /// Expands nothing (`"none"` in the document).
    Collapsed,
}

/// Used to enable, disable and preconfigure filtering
#[derive(Debug, Clone)]
pub enum Filter {
    /// Use this variant to enable or disable filtering.
    Bool(bool),
    /// Use this variant to enable filtering, and preconfigure a filter.
    Str(String),
}

impl Filter {
    /// A copy of this filter setting.
    pub fn duplicate(&self) -> (r: Self)
        ensures
            r == *self,
    {
        match self {
            Filter::Bool(b) => Filter::Bool(*b),
            Filter::Str(s) => Filter::Str(s.clone()),
        }
    }
}

/// Display options of the UI, and the location of the specification it shows.
#[derive(Debug, Clone)]
pub struct Config {
    /// The url to a single specification file that is shown when the UI is first opened.
    pub url: String,
    /// A list of named urls of specification files. Where it is not empty, the UI
    /// does not use `url`.
    pub urls: Vec<UrlObject>,
    /// If set to true, enables deep linking for tags and operations.
    /// Default: `false`.
    pub deep_linking: bool,
    /// Controls the display of operationId in operations list.
    /// Default: `false`.
    pub display_operation_id: bool,
    /// The default expansion depth for models (set to -1 completely hide the models).
    /// Default: `1`.
    pub default_models_expand_depth: i32,
    /// The default expansion depth for the model on the model-example section.
    /// Default: `1`.
    pub default_model_expand_depth: i32,
    /// Controls how the model is shown when the API is first rendered.
    /// Default: `DefaultModelRendering::Example`.
    pub default_model_rendering: DefaultModelRendering,
    /// Controls the display of the request duration (in milliseconds) for "Try it out" requests.
    /// Default: `false`.
    pub display_request_duration: bool,
    /// Controls the default expansion setting for the operations and tags.
    /// Default: `DocExpansion::List`.
    pub doc_expansion: DocExpansion,
    /// If set, enables filtering of the tagged operations by a case sensitive expression.
    /// Default: `Filter::Bool(false)`.
    pub filter: Filter,
    /// If not zero, limits the number of tagged operations displayed to at most this many.
    /// Default: `0` (displays all tagged operations).
    pub max_displayed_tags: u32,
    /// Controls the display of vendor extension (`x-`) fields and values.
    /// Default: `false`.
    pub show_extensions: bool,
    /// Controls the display of extensions (`pattern`, `maxLength`, ...) fields and values
    /// for parameters.
    /// Default: `false`.
    pub show_common_extensions: bool,
}

/// Whether two configurations agree on everything but `url`.
pub open spec fn same_options(a: Config, b: Config) -> bool {
    &&& a.urls@ == b.urls@
    &&& a.deep_linking == b.deep_linking
    &&& a.display_operation_id == b.display_operation_id
    &&& a.default_models_expand_depth == b.default_models_expand_depth
    &&& a.default_model_expand_depth == b.default_model_expand_depth
    &&& a.default_model_rendering == b.default_model_rendering
    &&& a.display_request_duration == b.display_request_duration
    &&& a.doc_expansion == b.doc_expansion
    &&& a.filter == b.filter
    &&& a.max_displayed_tags == b.max_displayed_tags
    &&& a.show_extensions == b.show_extensions
    &&& a.show_common_extensions == b.show_common_extensions
}

/// Whether a count is zero; a zero tag limit is left out of the document.
pub fn is_zero(num: &u32) -> (r: bool)
    ensures
        r == (*num == 0),
{
    *num == 0
}

/// A copy of a list of named urls.
pub fn copy_urls(urls: &Vec<UrlObject>) -> (r: Vec<UrlObject>)
    ensures
        r@ == urls@,
{
    let mut r: Vec<UrlObject> = Vec::new();
    let mut i: usize = 0;
    while i < urls.len()
        invariant
            i <= urls@.len(),
            r@ == urls@.subrange(0, i as int),
        decreases urls@.len() - i,
    {
        r.push(urls[i].duplicate());
        i = i + 1;
        assert(r@ =~= urls@.subrange(0, i as int));
    }
    assert(urls@.subrange(0, urls@.len() as int) =~= urls@);
    r
}

impl Config {
    /// A copy of this configuration whose `url` is the one given.
    pub fn with_url(&self, url: String) -> (r: Config)
        ensures
            r.url == url,
            same_options(r, *self),
    {
        Config {
            url,
            urls: copy_urls(&self.urls),
            deep_linking: self.deep_linking,
            display_operation_id: self.display_operation_id,
            default_models_expand_depth: self.default_models_expand_depth,
            default_model_expand_depth: self.default_model_expand_depth,
            default_model_rendering: self.default_model_rendering,
            display_request_duration: self.display_request_duration,
            doc_expansion: self.doc_expansion,
            filter: self.filter.duplicate(),
            max_displayed_tags: self.max_displayed_tags,
            show_extensions: self.show_extensions,
            show_common_extensions: self.show_common_extensions,
        }
    }
}

impl Default for Config {
    fn default() -> (r: Self)
        ensures
            r.url@.len() == 0,
            r.urls@.len() == 0,
            !r.deep_linking,
            !r.display_operation_id,
            r.default_models_expand_depth == 1,
            r.default_model_expand_depth == 1,
            r.default_model_rendering == DefaultModelRendering::Example,
            !r.display_request_duration,
            r.doc_expansion == DocExpansion::List,
            r.filter == Filter::Bool(false),
            r.max_displayed_tags == 0,
            !r.show_extensions,
            !r.show_common_extensions,
    {
        Config {
            url: String::new(),
            urls: Vec::new(),
            deep_linking: false,
            display_operation_id: false,
            default_models_expand_depth: 1,
            default_model_expand_depth: 1,
            default_model_rendering: DefaultModelRendering::Example,
            display_request_duration: false,
            doc_expansion: DocExpansion::List,
            filter: Filter::Bool(false),
            max_displayed_tags: 0,
            show_extensions: false,
            show_common_extensions: false,
        }
    }
}

} // verus!
