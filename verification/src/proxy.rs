//! The reverse proxy's routing table: classifying request paths and
//! building the proxied targets.

use vstd::prelude::*;
use vstd::string::{StringExecFns, StrSliceExecFns};

use crate::text::{eq_str, is_prefix, starts_with};

verus! {

/// Where the proxy listens and where each route's upstream lives.
#[derive(Debug, Clone)]
pub struct ReverseProxyConfig {
    pub listen_addr: String,
    pub static_assets_url: String,
    pub blog_url: String,
    pub base_url: String,
    pub auth_url: String,
    pub publisher_url: String,
    pub librarian_url: String,
    pub blog_htmx_url: String,
}

/// A classified request path.
#[derive(Debug)]
pub enum Route {
    StaticAssets(String),
    Blog(String),
    Auth(String),
    Publisher(String),
    Librarian(String),
    BlogHtmx(String),
    NotFound,
    HealthCheck,
    Root,
}

/// Mathematical model of a classified path.
pub ghost enum RouteView {
    StaticAssets(Seq<char>),
    Blog(Seq<char>),
    Auth(Seq<char>),
    Publisher(Seq<char>),
    Librarian(Seq<char>),
    BlogHtmx(Seq<char>),
    NotFound,
    HealthCheck,
    Root,
}

impl View for Route {
    type V = RouteView;

    open spec fn view(&self) -> RouteView {
        match self {
            Route::StaticAssets(s) => RouteView::StaticAssets(s@),
            Route::Blog(s) => RouteView::Blog(s@),
            Route::Auth(s) => RouteView::Auth(s@),
            Route::Publisher(s) => RouteView::Publisher(s@),
            Route::Librarian(s) => RouteView::Librarian(s@),
            Route::BlogHtmx(s) => RouteView::BlogHtmx(s@),
            Route::NotFound => RouteView::NotFound,
            Route::HealthCheck => RouteView::HealthCheck,
            Route::Root => RouteView::Root,
        }
    }
}

/// Whether a path falls under a route prefix: it is the prefix itself, or
/// continues it right at a path separator.
pub open spec fn spec_matches_path(path: Seq<char>, route_path: Seq<char>) -> bool {
    is_prefix(route_path, path) && (path.len() == route_path.len() || path[route_path.len() as int]
        == '/')
}

/// Whether a path falls under a route prefix.
pub fn matches_path(path: &str, route_path: &str) -> (r: bool)
    ensures
        r == spec_matches_path(path@, route_path@),
{
    if !starts_with(path, route_path) {
        return false;
    }
    let rlen = route_path.unicode_len();
    if path.unicode_len() == rlen {
        return true;
    }
    path.get_char(rlen) == '/'
}

/// A path with a known prefix removed; a path that does not carry the
/// prefix is left whole.
pub open spec fn spec_strip_prefix(input: Seq<char>, prefix: Seq<char>) -> Seq<char> {
    if is_prefix(prefix, input) {
        input.skip(prefix.len() as int)
    } else {
        input
    }
}

/// Remove a prefix from a path, leaving a path without it whole.
pub fn strip_prefix(input: &str, prefix: &str) -> (r: String)
    ensures
        r@ == spec_strip_prefix(input@, prefix@),
{
    if starts_with(input, prefix) {
        let rest = input.substring_char(prefix.unicode_len(), input.unicode_len());
        proof {
            assert(input@.subrange(prefix@.len() as int, input@.len() as int) =~= input@.skip(
                prefix@.len() as int,
            ));
        }
        String::from_str(rest)
    } else {
        String::from_str(input)
    }
}

/// The route a request path names. The prefixes are tried in a fixed
/// order; the empty path and `/` are the root, and a path under no prefix
/// is not found.
pub open spec fn spec_route_of(path: Seq<char>) -> RouteView {
    if path == "/"@ || path.len() == 0 {
        RouteView::Root
    } else if spec_matches_path(path, "/auth"@) {
        RouteView::Auth(spec_strip_prefix(path, "/auth"@))
    } else if spec_matches_path(path, "/blog"@) {
        RouteView::Blog(spec_strip_prefix(path, "/blog"@))
    } else if spec_matches_path(path, "/static"@) {
        RouteView::StaticAssets(spec_strip_prefix(path, "/static"@))
    } else if spec_matches_path(path, "/publisher"@) {
        RouteView::Publisher(spec_strip_prefix(path, "/publisher"@))
    } else if spec_matches_path(path, "/healthcheck"@) {
        RouteView::HealthCheck
    } else if spec_matches_path(path, "/librarian"@) {
        RouteView::Librarian(spec_strip_prefix(path, "/librarian"@))
    } else if spec_matches_path(path, "/blog-htmx"@) {
        RouteView::BlogHtmx(spec_strip_prefix(path, "/blog-htmx"@))
    } else {
        RouteView::NotFound
    }
}

impl Route {
    /// Classify a request path.
    pub fn from_path(path: &str) -> (r: Route)
        ensures
            r@ == spec_route_of(path@),
    {
        if eq_str(path, "/") || path.unicode_len() == 0 {
            return Route::Root;
        }
        if matches_path(path, "/auth") {
            return Route::Auth(strip_prefix(path, "/auth"));
        }
        if matches_path(path, "/blog") {
            return Route::Blog(strip_prefix(path, "/blog"));
        }
        if matches_path(path, "/static") {
            return Route::StaticAssets(strip_prefix(path, "/static"));
        }
        if matches_path(path, "/publisher") {
            return Route::Publisher(strip_prefix(path, "/publisher"));
        }
        if matches_path(path, "/healthcheck") {
            return Route::HealthCheck;
        }
        if matches_path(path, "/librarian") {
            return Route::Librarian(strip_prefix(path, "/librarian"));
        }
        if matches_path(path, "/blog-htmx") {
            return Route::BlogHtmx(strip_prefix(path, "/blog-htmx"));
        }
        Route::NotFound
    }
}

/// A route the proxy forwards upstream.
#[derive(Debug)]
pub enum ProxyRoute {
    StaticAssets(String),
    Blog(String),
    Auth(String),
    Publisher(String),
    Librarian(String),
    BlogHtmx(String),
}

/// The upstream target of a proxied route: the configured upstream with
/// the remaining slug appended.
pub open spec fn spec_proxied_uri(route: ProxyRoute, config: ReverseProxyConfig) -> Seq<char> {
    match route {
        ProxyRoute::StaticAssets(slug) => config.static_assets_url@ + slug@,
        ProxyRoute::Blog(slug) => config.blog_url@ + slug@,
        ProxyRoute::Auth(slug) => config.auth_url@ + slug@,
        ProxyRoute::Publisher(slug) => config.publisher_url@ + slug@,
        ProxyRoute::Librarian(slug) => config.librarian_url@ + slug@,
        ProxyRoute::BlogHtmx(slug) => config.blog_htmx_url@ + slug@,
    }
}

/// The upstream target of a proxied route.
pub fn get_proxied_uri(route: &ProxyRoute, config: &ReverseProxyConfig) -> (r: String)
    ensures
        r@ == spec_proxied_uri(*route, *config),
{
    match route {
        ProxyRoute::StaticAssets(slug) => config.static_assets_url.clone().concat(slug.as_str()),
        ProxyRoute::Blog(slug) => config.blog_url.clone().concat(slug.as_str()),
        ProxyRoute::Auth(slug) => config.auth_url.clone().concat(slug.as_str()),
        ProxyRoute::Publisher(slug) => config.publisher_url.clone().concat(slug.as_str()),
        ProxyRoute::Librarian(slug) => config.librarian_url.clone().concat(slug.as_str()),
        ProxyRoute::BlogHtmx(slug) => config.blog_htmx_url.clone().concat(slug.as_str()),
    }
}

impl ProxyRoute {
    /// The upstream target of this route.
    pub fn proxied_uri(&self, config: &ReverseProxyConfig) -> (r: String)
        ensures
            r@ == spec_proxied_uri(*self, *config),
    {
        get_proxied_uri(self, config)
    }
}

/// A route the proxy answers itself.
#[derive(Debug)]
pub enum NonProxyRoute {
    NotFound,
    HealthCheck,
    Root,
}

/// A route sorted by who answers it.
#[derive(Debug)]
pub enum ClassifiedRoute {
    Proxy(ProxyRoute),
    NonProxy(NonProxyRoute),
}

impl From<Route> for ClassifiedRoute {
    /// Sort a route: the slug-carrying routes are proxied, the rest are
    /// answered in place.
    fn from(route: Route) -> (r: Self) {
        match route {
            Route::Publisher(path) => ClassifiedRoute::Proxy(ProxyRoute::Publisher(path)),
            Route::Blog(path) => ClassifiedRoute::Proxy(ProxyRoute::Blog(path)),
            Route::Auth(path) => ClassifiedRoute::Proxy(ProxyRoute::Auth(path)),
            Route::StaticAssets(path) => ClassifiedRoute::Proxy(ProxyRoute::StaticAssets(path)),
            Route::Librarian(path) => ClassifiedRoute::Proxy(ProxyRoute::Librarian(path)),
            Route::BlogHtmx(path) => ClassifiedRoute::Proxy(ProxyRoute::BlogHtmx(path)),
            Route::NotFound => ClassifiedRoute::NonProxy(NonProxyRoute::NotFound),
            Route::HealthCheck => ClassifiedRoute::NonProxy(NonProxyRoute::HealthCheck),
            Route::Root => ClassifiedRoute::NonProxy(NonProxyRoute::Root),
        }
    }
}

impl vstd::std_specs::convert::FromSpecImpl<Route> for ClassifiedRoute {
    open spec fn obeys_from_spec() -> bool {
        true
    }

    open spec fn from_spec(route: Route) -> Self {
        match route {
            Route::Publisher(path) => ClassifiedRoute::Proxy(ProxyRoute::Publisher(path)),
            Route::Blog(path) => ClassifiedRoute::Proxy(ProxyRoute::Blog(path)),
            Route::Auth(path) => ClassifiedRoute::Proxy(ProxyRoute::Auth(path)),
            Route::StaticAssets(path) => ClassifiedRoute::Proxy(ProxyRoute::StaticAssets(path)),
            Route::Librarian(path) => ClassifiedRoute::Proxy(ProxyRoute::Librarian(path)),
            Route::BlogHtmx(path) => ClassifiedRoute::Proxy(ProxyRoute::BlogHtmx(path)),
            Route::NotFound => ClassifiedRoute::NonProxy(NonProxyRoute::NotFound),
            Route::HealthCheck => ClassifiedRoute::NonProxy(NonProxyRoute::HealthCheck),
            Route::Root => ClassifiedRoute::NonProxy(NonProxyRoute::Root),
        }
    }
}

} // verus!
