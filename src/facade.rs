//! The routing decisions of the asset provider that wraps a local one.
//!
//! Each request is either answered here, turned into a fetch, or handed
//! unchanged to the wrapped provider, whose answer is then returned as it is.
use vstd::prelude::*;

use crate::path_kind::{
    class_of, classify, is_http, is_http_path, is_origin_path, PathClass, PathClassView,
};

verus! {

/// A request made of an asset provider.
#[derive(Debug, PartialEq, Eq, Clone)]
pub enum Request {
    /// Load the bytes of the asset at a path.
    Load(String),
    /// List the entries of a directory.
    ReadDirectory(String),
    /// Watch one path for changes.
    WatchPath(String),
    /// Watch every asset for changes.
    WatchAll,
    /// Ask whether a path is a directory.
    IsDirectory(String),
}

/// A request, as a value of the specification.
pub enum RequestView {
    Load(Seq<char>),
    ReadDirectory(Seq<char>),
    WatchPath(Seq<char>),
    WatchAll,
    IsDirectory(Seq<char>),
}

impl View for Request {
    type V = RequestView;

    open spec fn view(&self) -> RequestView {
        match self {
            Request::Load(p) => RequestView::Load(p@),
            Request::ReadDirectory(p) => RequestView::ReadDirectory(p@),
            Request::WatchPath(p) => RequestView::WatchPath(p@),
            Request::WatchAll => RequestView::WatchAll,
            Request::IsDirectory(p) => RequestView::IsDirectory(p@),
        }
    }
}

/// What is done with a request.
#[derive(Debug, PartialEq, Eq, Clone)]
pub enum Route {
    /// Hand the same request to the wrapped provider and return its answer.
    Delegate,
    /// Fetch the bytes at this absolute address.
    Fetch(String),
    /// Fetch the bytes at the host's origin followed by this suffix.
    FetchFromOrigin(String),
    /// Answer success at once, with nothing further done.
    Succeed,
    /// Answer that the path is no directory.
    NotDirectory,
}

/// A route, as a value of the specification.
pub enum RouteView {
    Delegate,
    Fetch(Seq<char>),
    FetchFromOrigin(Seq<char>),
    Succeed,
    NotDirectory,
}

impl View for Route {
    type V = RouteView;

    open spec fn view(&self) -> RouteView {
        match self {
            Route::Delegate => RouteView::Delegate,
            Route::Fetch(u) => RouteView::Fetch(u@),
            Route::FetchFromOrigin(s) => RouteView::FetchFromOrigin(s@),
            Route::Succeed => RouteView::Succeed,
            Route::NotDirectory => RouteView::NotDirectory,
        }
    }
}

/// The route of a load: remote paths are fetched, local ones delegated.
pub open spec fn load_route_of(path: Seq<char>) -> RouteView {
    match class_of(path) {
        PathClassView::RemoteAbsolute(u) => RouteView::Fetch(u),
        PathClassView::RemoteOriginRelative(s) => RouteView::FetchFromOrigin(s),
        PathClassView::Local => RouteView::Delegate,
    }
}

/// The route of every request.
pub open spec fn route_of(req: RequestView) -> RouteView {
    match req {
        RequestView::Load(p) => load_route_of(p),
        RequestView::ReadDirectory(_) => RouteView::Delegate,
        RequestView::WatchPath(p) => if is_http_path(p) {
            RouteView::Succeed
        } else {
            RouteView::Delegate
        },
        RequestView::WatchAll => RouteView::Delegate,
        RequestView::IsDirectory(p) => if is_http_path(p) {
            RouteView::NotDirectory
        } else {
            RouteView::Delegate
        },
    }
}

/// Decides what is done with a request.
pub fn route(req: &Request) -> (r: Route)
    ensures
        r@ == route_of(req@),
{
    match req {
        Request::Load(p) => match classify(p.as_str()) {
            PathClass::RemoteAbsolute(u) => Route::Fetch(u),
            PathClass::RemoteOriginRelative(s) => Route::FetchFromOrigin(s),
            PathClass::Local => Route::Delegate,
        },
        Request::ReadDirectory(_) => Route::Delegate,
        Request::WatchPath(p) => if is_http(p.as_str()) {
            Route::Succeed
        } else {
            Route::Delegate
        },
        Request::WatchAll => Route::Delegate,
        Request::IsDirectory(p) => if is_http(p.as_str()) {
            Route::NotDirectory
        } else {
            Route::Delegate
        },
    }
}

/// A path under neither remote prefix is local, and its load goes to the
/// wrapped provider unchanged.
pub proof fn lemma_local_load_delegates(path: Seq<char>)
    requires
        !is_http_path(path),
        !is_origin_path(path),
    ensures
        class_of(path) == PathClassView::Local,
        route_of(RequestView::Load(path)) == RouteView::Delegate,
{
}

/// Directory listing and the global watch always go to the wrapped provider,
/// and so does the directory test of any path that is no `http` address.
pub proof fn lemma_pass_through(path: Seq<char>)
    ensures
        route_of(RequestView::ReadDirectory(path)) == RouteView::Delegate,
        route_of(RequestView::WatchAll) == RouteView::Delegate,
        !is_http_path(path) ==> route_of(RequestView::IsDirectory(path)) == RouteView::Delegate,
{
}

/// An `http` address is never a directory, whatever its server would say.
pub proof fn lemma_remote_not_directory(path: Seq<char>)
    requires
        is_http_path(path),
    ensures
        route_of(RequestView::IsDirectory(path)) == RouteView::NotDirectory,
{
}

/// Watching an `http` address succeeds without the wrapped provider.
pub proof fn lemma_remote_watch_succeeds(path: Seq<char>)
    requires
        is_http_path(path),
    ensures
        route_of(RequestView::WatchPath(path)) == RouteView::Succeed,
{
}

} // verus!
