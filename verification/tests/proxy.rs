use pastureen::proxy::{
    get_proxied_uri, matches_path, strip_prefix, ClassifiedRoute, NonProxyRoute, ProxyRoute,
    ReverseProxyConfig, Route,
};

fn config() -> ReverseProxyConfig {
    ReverseProxyConfig {
        listen_addr: "0.0.0.0:8080".to_string(),
        static_assets_url: "http://assets".to_string(),
        blog_url: "http://blog".to_string(),
        base_url: "http://base".to_string(),
        auth_url: "http://auth".to_string(),
        publisher_url: "http://publisher".to_string(),
        librarian_url: "http://librarian".to_string(),
        blog_htmx_url: "http://blog-htmx".to_string(),
    }
}

#[test]
fn path_matching_demands_a_separator() {
    assert!(matches_path("/auth", "/auth"));
    assert!(matches_path("/auth/login", "/auth"));
    assert!(!matches_path("/authx", "/auth"));
    assert!(!matches_path("/aut", "/auth"));
    assert!(!matches_path("", "/auth"));
}

#[test]
fn prefixes_are_stripped_only_when_present() {
    assert_eq!(strip_prefix("/auth/login", "/auth"), "/login");
    assert_eq!(strip_prefix("/auth", "/auth"), "");
    assert_eq!(strip_prefix("/other", "/auth"), "/other");
}

#[test]
fn routing_table() {
    assert!(matches!(Route::from_path("/"), Route::Root));
    assert!(matches!(Route::from_path(""), Route::Root));
    assert!(matches!(Route::from_path("/healthcheck"), Route::HealthCheck));
    assert!(matches!(Route::from_path("/nowhere"), Route::NotFound));

    match Route::from_path("/auth/login") {
        Route::Auth(rest) => assert_eq!(rest, "/login"),
        other => panic!("misrouted: {:?}", other),
    }
    match Route::from_path("/blog/posts.html") {
        Route::Blog(rest) => assert_eq!(rest, "/posts.html"),
        other => panic!("misrouted: {:?}", other),
    }
    match Route::from_path("/static/logo.png") {
        Route::StaticAssets(rest) => assert_eq!(rest, "/logo.png"),
        other => panic!("misrouted: {:?}", other),
    }
    match Route::from_path("/publisher") {
        Route::Publisher(rest) => assert_eq!(rest, ""),
        other => panic!("misrouted: {:?}", other),
    }
    match Route::from_path("/librarian/tags") {
        Route::Librarian(rest) => assert_eq!(rest, "/tags"),
        other => panic!("misrouted: {:?}", other),
    }
    match Route::from_path("/blog-htmx/search") {
        Route::BlogHtmx(rest) => assert_eq!(rest, "/search"),
        other => panic!("misrouted: {:?}", other),
    }
}

#[test]
fn proxied_uris_point_upstream() {
    let cfg = config();
    assert_eq!(
        get_proxied_uri(&ProxyRoute::Auth("/login".to_string()), &cfg),
        "http://auth/login"
    );
    assert_eq!(
        ProxyRoute::Blog("/posts.html".to_string()).proxied_uri(&cfg),
        "http://blog/posts.html"
    );
    assert_eq!(
        ProxyRoute::StaticAssets("/a.css".to_string()).proxied_uri(&cfg),
        "http://assets/a.css"
    );
    assert_eq!(
        ProxyRoute::Publisher("".to_string()).proxied_uri(&cfg),
        "http://publisher"
    );
    assert_eq!(
        ProxyRoute::Librarian("/tags".to_string()).proxied_uri(&cfg),
        "http://librarian/tags"
    );
    assert_eq!(
        ProxyRoute::BlogHtmx("/search".to_string()).proxied_uri(&cfg),
        "http://blog-htmx/search"
    );
}

#[test]
fn classification_sorts_routes() {
    assert!(matches!(
        ClassifiedRoute::from(Route::from_path("/blog/x")),
        ClassifiedRoute::Proxy(ProxyRoute::Blog(_))
    ));
    assert!(matches!(
        ClassifiedRoute::from(Route::from_path("/healthcheck")),
        ClassifiedRoute::NonProxy(NonProxyRoute::HealthCheck)
    ));
    assert!(matches!(
        ClassifiedRoute::from(Route::from_path("/")),
        ClassifiedRoute::NonProxy(NonProxyRoute::Root)
    ));
    assert!(matches!(
        ClassifiedRoute::from(Route::from_path("/missing")),
        ClassifiedRoute::NonProxy(NonProxyRoute::NotFound)
    ));
}
