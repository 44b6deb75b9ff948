//! Serving a bundled API-documentation UI together with an API specification:
//! content types, the UI's configuration document, the redirect of the mount
//! root and the table of routes, all as plain values that a web framework
//! only has to map onto its own routing.

pub mod text;
pub mod mime;
pub mod config;
pub mod document;
pub mod source;
pub mod redirect;
pub mod assets;
pub mod routes;
pub mod laws;

pub use assets::SwaggerUiAssets;
pub use config::{Config, DefaultModelRendering, DocExpansion, Filter, UrlObject};
pub use mime::{content_type, extension};
pub use redirect::{RedirectHandler, index_location};
pub use routes::{Endpoint, Response, Route, SwaggerUi};
pub use source::{Spec, SpecOrUrl};
