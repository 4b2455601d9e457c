//! Protocol-based module resolution: a specifier string plus metadata about
//! the requesting module is normalized to an absolute URL, the URL's scheme
//! selects an ordered list of resolvers, and the first resolver that claims
//! the specifier materializes its source through a bound loader.

pub mod errors;
pub mod fs_model;
pub mod json;
pub mod laws;
pub mod loader;
pub mod manager;
pub mod resolver;
pub mod urls;
