//! Configuration engine for an LLM request-routing gateway.
//!
//! A declarative TOML document describes the models a gateway can dispatch
//! to, the functions it exposes, the prompt variants implementing each
//! function, the tools functions may call, and the metrics attached to
//! results.  This crate turns such a document into a fully resolved,
//! internally consistent registry in two phases: strict structural
//! deserialization into a declaration model, then resolution and
//! cross-referential validation into an immutable `Config`.

pub mod config;
pub mod de;
pub mod error;
pub mod function;
pub mod gateway;
pub mod laws;
pub mod metric;
pub mod model;
pub mod raw;
pub mod schema;
pub mod template;
pub mod text;
pub mod tool;
pub mod validation;
pub mod variant;

pub use config::Config;
pub use error::Error;
pub use raw::{parse_document, RawValue};
pub use schema::SchemaSource;
pub use template::TemplateSource;
