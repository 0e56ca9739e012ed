//! A configuration resolution engine.
//!
//! Given a declarative schema describing the shape of a configuration value
//! (nested records and tagged unions, each field or variant annotated with
//! candidate lookup names, defaults, transform and validation hooks, and
//! naming policies), the engine resolves a fully populated configuration
//! value from layered, read-only key/value sources: an environment snapshot
//! first, then an optional fallback map (for instance one parsed from a
//! dotenv-style file).

use vstd::prelude::*;

verus! {

/// Capability of a configuration type to resolve itself from a chain of
/// key/value sources. Implementations typically build a schema, run the
/// engine on it, and convert the resolved value into `Self`.
pub trait Envoke: Sized {
    /// Attempts to create an instance of `Self` by resolving values from
    /// the given source chain. Returns an error if a required key is
    /// missing or a retrieved value cannot be parsed or validated.
    fn try_envoke(chain: &crate::source::SourceChain) -> Result<Self, crate::errors::Error>;
}

} // verus!

pub mod casing;
pub mod diag;
pub mod dotenv;
pub mod errors;
pub mod hooks;
pub mod laws;
pub mod load;
pub mod load_opt;
pub mod parse;
pub mod resolve;
pub mod schema;
pub mod source;
pub mod strutil;
pub mod value;
