//! The routes of the HTTP surface and the content type each one declares.

use vstd::prelude::*;

verus! {

/// A path that the server answers.
#[derive(Debug, Clone, Copy, PartialEq, Eq, Structural)]
pub enum Route {
    /// `/`: the page.
    Root,
    /// `/index.mjs`: the script of the page.
    Script,
    /// `/index.css`: the style sheet of the page.
    Style,
    /// `/favicon.ico`: the icon.
    Icon,
    /// `/events`: the push channel.
    Events,
}

/// The path of `route`.
pub open spec fn path_of(route: Route) -> &'static str {
    match route {
        Route::Root => "/",
        Route::Script => "/index.mjs",
        Route::Style => "/index.css",
        Route::Icon => "/favicon.ico",
        Route::Events => "/events",
    }
}

/// The content type that the handler of `route` declares itself, if any.
pub open spec fn content_type_of(route: Route) -> Option<&'static str> {
    match route {
        Route::Script => Some("application/javascript"),
        Route::Style => Some("text/css"),
        Route::Icon => None,
        Route::Root => None,
        Route::Events => None,
    }
}

impl Route {
    /// The path under which the route is served.
    pub fn path(self) -> (path: &'static str)
        ensures
            path == path_of(self),
    {
        match self {
            Route::Root => "/",
            Route::Script => "/index.mjs",
            Route::Style => "/index.css",
            Route::Icon => "/favicon.ico",
            Route::Events => "/events",
        }
    }

    /// The value of the content-type header that the route's handler sets.
    /// Only the script and the style sheet declare one. The icon is a binary
    /// body with no declared type, and the page and the push channel leave
    /// the header to the serving layer.
    pub fn content_type(self) -> (declared: Option<&'static str>)
        ensures
            declared == content_type_of(self),
    {
        match self {
            Route::Script => Some("application/javascript"),
            Route::Style => Some("text/css"),
            Route::Icon => None,
            Route::Root => None,
            Route::Events => None,
        }
    }
}

} // verus!
