//! Resolution of asset paths that may name remote resources.
//!
//! Paths that start with `http://` or `https://` are fetched over the network,
//! paths that start with the `{origin}` marker are fetched relative to the
//! host page's origin, and every other path is handed to a wrapped local
//! asset provider.
pub mod facade;
pub mod origin;
pub mod path_kind;
