//! Classification of asset paths by their textual prefix.
use vstd::prelude::*;
use vstd::string::*;

verus! {

/// `http://`
pub open spec fn http_prefix() -> Seq<char> {
    seq!['h', 't', 't', 'p', ':', '/', '/']
}

/// `https://`
pub open spec fn https_prefix() -> Seq<char> {
    seq!['h', 't', 't', 'p', 's', ':', '/', '/']
}

/// `{origin}`, the marker of a path relative to the host page's origin.
pub open spec fn origin_marker() -> Seq<char> {
    seq!['{', 'o', 'r', 'i', 'g', 'i', 'n', '}']
}

/// The number of characters of the origin marker.
pub const ORIGIN_MARKER_LEN: usize = 8;

/// `s` begins with `p`, character for character.
pub open spec fn has_prefix(s: Seq<char>, p: Seq<char>) -> bool {
    p.len() <= s.len() && s.subrange(0, p.len() as int) == p
}

/// The path is an absolute `http` or `https` address.
pub open spec fn is_http_path(s: Seq<char>) -> bool {
    has_prefix(s, http_prefix()) || has_prefix(s, https_prefix())
}

/// The path begins with the origin marker.
pub open spec fn is_origin_path(s: Seq<char>) -> bool {
    has_prefix(s, origin_marker())
}

/// Tests whether `s` begins with `p`.
pub fn starts_with(s: &str, p: &str) -> (r: bool)
    ensures
        r == has_prefix(s@, p@),
{
    let slen = s.unicode_len();
    let plen = p.unicode_len();
    if plen > slen {
        return false;
    }
    let mut i: usize = 0;
    while i < plen
        invariant
            plen == p@.len(),
            slen == s@.len(),
            plen <= slen,
            i <= plen,
            forall|k: int| 0 <= k < i ==> s@[k] == p@[k],
        decreases plen - i,
    {
        if s.get_char(i) != p.get_char(i) {
            assert(s@.subrange(0, plen as int)[i as int] != p@[i as int]);
            return false;
        }
        i = i + 1;
    }
    assert(s@.subrange(0, plen as int) =~= p@);
    true
}

/// Tests whether the path is an absolute `http://` or `https://` address.
pub fn is_http(path: &str) -> (r: bool)
    ensures
        r == is_http_path(path@),
{
    proof {
        reveal_strlit("http://");
        reveal_strlit("https://");
    }
    assert("http://"@ =~= http_prefix());
    assert("https://"@ =~= https_prefix());
    starts_with(path, "http://") || starts_with(path, "https://")
}

/// Tests whether the path begins with the `{origin}` marker.
pub fn is_origin(path: &str) -> (r: bool)
    ensures
        r == is_origin_path(path@),
{
    proof {
        reveal_strlit("{origin}");
    }
    assert("{origin}"@ =~= origin_marker());
    starts_with(path, "{origin}")
}

/// What a path names, as a value of the specification.
pub enum PathClassView {
    RemoteAbsolute(Seq<char>),
    RemoteOriginRelative(Seq<char>),
    Local,
}

/// What a path names.
#[derive(Debug, PartialEq, Eq, Clone)]
pub enum PathClass {
    /// A complete network address, used as it stands.
    RemoteAbsolute(String),
    /// A path relative to the host page's origin, the marker taken off.
    RemoteOriginRelative(String),
    /// A path of the local asset store.
    Local,
}

impl View for PathClass {
    type V = PathClassView;

    open spec fn view(&self) -> PathClassView {
        match self {
            PathClass::RemoteAbsolute(u) => PathClassView::RemoteAbsolute(u@),
            PathClass::RemoteOriginRelative(s) => PathClassView::RemoteOriginRelative(s@),
            PathClass::Local => PathClassView::Local,
        }
    }
}

/// The class of a path, decided by its prefix alone.
pub open spec fn class_of(s: Seq<char>) -> PathClassView {
    if is_http_path(s) {
        PathClassView::RemoteAbsolute(s)
    } else if is_origin_path(s) {
        PathClassView::RemoteOriginRelative(s.subrange(origin_marker().len() as int, s.len() as int))
    } else {
        PathClassView::Local
    }
}

/// No path begins with both the origin marker and an `http` scheme.
pub proof fn lemma_origin_not_http(s: Seq<char>)
    requires
        is_origin_path(s),
    ensures
        !is_http_path(s),
{
    assert(s.subrange(0, 8)[0] == '{');
    if has_prefix(s, http_prefix()) {
        assert(s.subrange(0, 7)[0] == 'h');
    }
    if has_prefix(s, https_prefix()) {
        assert(s.subrange(0, 8)[0] == 'h');
    }
}

/// Classifies a path: an `http://` or `https://` address is remote and kept
/// whole, a path under the origin marker is remote relative to the host's
/// origin and loses the marker, and any other path is local.
pub fn classify(path: &str) -> (r: PathClass)
    ensures
        r@ == class_of(path@),
        is_http_path(path@) ==> r@ == PathClassView::RemoteAbsolute(path@),
        is_origin_path(path@) ==> r@ == PathClassView::RemoteOriginRelative(
            path@.subrange(origin_marker().len() as int, path@.len() as int),
        ),
        !is_http_path(path@) && !is_origin_path(path@) ==> r@ == PathClassView::Local,
{
    proof {
        if is_origin_path(path@) {
            lemma_origin_not_http(path@);
        }
    }
    if is_http(path) {
        PathClass::RemoteAbsolute(path.to_owned())
    } else if is_origin(path) {
        let len = path.unicode_len();
        let rest = path.substring_char(ORIGIN_MARKER_LEN, len);
        PathClass::RemoteOriginRelative(rest.to_owned())
    } else {
        PathClass::Local
    }
}

} // verus!
