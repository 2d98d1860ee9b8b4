//! Resolution of origin-relative paths and normalisation of fetch outcomes.
use vstd::prelude::*;
use vstd::string::*;

verus! {

/// Why a remote load failed.
#[derive(Debug, PartialEq, Eq, Clone)]
pub enum LoadError {
    /// The transport failed; carries the path as the caller asked for it.
    NotFound(String),
    /// An origin-relative path was loaded where the host has no origin.
    OriginUnsupported,
}

/// Joins the host's origin and a suffix into an absolute address.
pub fn resolve_origin(origin: &str, suffix: &str) -> (r: String)
    ensures
        r@ == origin@ + suffix@,
{
    let mut r = String::from_str(origin);
    r.append(suffix);
    r
}

/// The address to fetch for an origin-relative suffix, given the host's
/// origin where the host has one.
pub fn origin_url(host_origin: Option<&str>, suffix: &str) -> (r: Result<String, LoadError>)
    ensures
        host_origin is None <==> r == Err::<String, LoadError>(LoadError::OriginUnsupported),
        host_origin is Some ==> (r matches Ok(u) && u@ == host_origin->Some_0@ + suffix@),
{
    match host_origin {
        Some(o) => Ok(resolve_origin(o, suffix)),
        None => Err(LoadError::OriginUnsupported),
    }
}

/// The outcome of a load of `path` whose fetch gave `fetched`: the bytes
/// where the transport delivered them, else a not-found error that names
/// `path`.
pub fn finish_fetch(path: &str, fetched: Option<Vec<u8>>) -> (r: Result<Vec<u8>, LoadError>)
    ensures
        fetched is Some ==> (r matches Ok(b) && b@ == fetched->Some_0@),
        fetched is None ==> (r matches Err(LoadError::NotFound(p)) && p@ == path@),
{
    match fetched {
        Some(bytes) => Ok(bytes),
        None => Err(LoadError::NotFound(path.to_owned())),
    }
}

} // verus!
