use pastureen::blog::{get_navbar_props, get_pastureen_css_src, Page};
use pastureen::components::navbar;
use pastureen::blog_htmx::{link_to_item_props, next_page_offset, parse_search_query, render_links, SEARCH_LIMIT};
use pastureen::librarian::Link;
use pastureen::refresh_blog::{
    render_global_search_results_page, render_index_page, render_post, render_post_page,
    BlogConfig, GlobalSearchResultsPageProps, PostMeta, PostProps,
};
use pastureen::refresh_ui::Actionable;

fn config() -> BlogConfig {
    BlogConfig {
        assets_url: "http://assets".to_string(),
        base_url: "http://base".to_string(),
        htmx_url: "http://htmx".to_string(),
    }
}

fn post_props() -> PostProps {
    PostProps {
        meta: PostMeta {
            title: "A <great> post".to_string(),
            date: "2023-10-01".to_string(),
            tags: vec!["faith".to_string(), "tech".to_string()],
            slug: "a-great-post".to_string(),
        },
        post_content_html: "<p>body</p>".to_string(),
    }
}

#[test]
fn css_src_points_into_the_assets() {
    assert_eq!(get_pastureen_css_src(&config()), "http://assets/styles.css");
}

#[test]
fn navbar_marks_the_shown_page() {
    let nav = get_navbar_props(&config(), &Page::Index);
    assert_eq!(nav.nav_items.len(), 2);
    assert_eq!(nav.nav_items[0].text, "Home");
    assert!(nav.nav_items[0].is_active);
    assert_eq!(nav.nav_items[1].text, "Posts");
    assert_eq!(nav.nav_items[1].link, "http://base/posts.html");
    assert!(!nav.nav_items[1].is_active);
    assert_eq!(nav.logo_link, "http://base");
    assert_eq!(nav.logo_src, "http://assets/logo.png");
    assert_eq!(nav.logo_text, "Pastureen");

    let nav2 = get_navbar_props(&config(), &Page::Posts);
    assert!(!nav2.nav_items[0].is_active);
    assert!(nav2.nav_items[1].is_active);
}

#[test]
fn post_pages_carry_escaped_metadata_and_raw_content() {
    let html = render_post_page(config(), post_props());
    assert!(html.contains("A &lt;great&gt; post"));
    assert!(html.contains("<h3 class=\"post__date\">2023-10-01</h3>"));
    assert!(html.contains("<div class=\"post__tags\">#faith #tech</div>"));
    assert!(html.contains("<div class=\"post__content prose\"><p>body</p></div>"));
}

#[test]
fn rendered_posts_keep_their_metadata() {
    let post = render_post(config(), post_props());
    assert_eq!(post.meta.title, "A <great> post");
    assert_eq!(post.meta.slug, "a-great-post");
    assert_eq!(post.meta.tags, vec!["faith", "tech"]);
    assert_eq!(post.post_html, render_post_page(config(), post_props()));
}

#[test]
fn index_page_shows_the_splash() {
    let html = render_index_page(config());
    assert!(html.starts_with("<html><head><title>Pastureen</title>"));
    assert!(html.contains("src=\"http://assets/logo.png\""));
    assert!(html.contains("href=\"http://base#pastureen\""));
    assert!(html.contains("David's Blog"));
    // The about text is escaped where it quotes.
    assert!(html.contains("&quot;pasture&quot;"));
}

#[test]
fn results_page_nests_what_it_is_given() {
    let html = render_global_search_results_page(GlobalSearchResultsPageProps {
        suggestions: None,
        results_heading: Some("Results".to_string()),
        results: Some("<ul></ul>".to_string()),
        loader: Some("<div class=\"loader\">wait</div>".to_string()),
    });
    assert!(html.contains("<div class=\"heading heading--md\">Results</div>"));
    assert!(html.contains("<div class=\"global-search-result-items__list\"><ul></ul></div>"));
    assert!(html.contains("<div class=\"resource__loader\"><div class=\"loader\">wait</div></div>"));

    let bare = render_global_search_results_page(GlobalSearchResultsPageProps::default());
    assert!(!bare.contains("resource__loader"));
    assert!(!bare.contains("global-search-result-items__heading"));
}

#[test]
fn search_queries_sort_tags_from_title_words() {
    let tags = vec!["faith".to_string(), "tech".to_string()];

    // A tag: token names a tag, lowercased by the catalogue's convention.
    let q = parse_search_query("tag:Faith hello world", None, &tags);
    assert_eq!(q.tags, vec!["faith"]);
    assert_eq!(q.title_query, "hello world ");
    assert_eq!(q.pagination.page, 0);
    assert_eq!(q.pagination.limit, SEARCH_LIMIT);
    assert_eq!(q.start_date, "");
    assert_eq!(q.end_date, "");

    // A single token that is a known tag searches that tag.
    let q2 = parse_search_query("TECH", Some(2), &tags);
    assert_eq!(q2.tags, vec!["tech"]);
    assert_eq!(q2.title_query, "");
    assert_eq!(q2.pagination.page, 2);

    // The same word among others is just a title word.
    let q3 = parse_search_query("tech talk", None, &tags);
    assert!(q3.tags.is_empty());
    assert_eq!(q3.title_query, "tech talk ");

    // The query is trimmed before it is cut.
    let q4 = parse_search_query("  spaced out  ", None, &tags);
    assert_eq!(q4.title_query, "spaced out ");
}

#[test]
fn links_become_list_entries() {
    let link = Link {
        title: "A post".to_string(),
        date: "2023-01-01".to_string(),
        url: "/posts/a".to_string(),
        subtitle: String::new(),
        description: String::new(),
        image_url: None,
        image_alt: None,
        tags: vec!["x".to_string(), "y".to_string()],
    };
    let item = link_to_item_props(&link, "http://base");
    assert_eq!(item.title, "A post");
    assert_eq!(item.subtitle, "2023-01-01");
    assert_eq!(item.tertiary, "#x #y ");
    match item.actionable {
        Some(Actionable::Link(url)) => assert_eq!(url, "http://base/posts/a"),
        _ => panic!("expected a link"),
    }

    let absolute = Link { url: "https://elsewhere".to_string(), ..link_fields() };
    let item2 = link_to_item_props(&absolute, "http://base");
    match item2.actionable {
        Some(Actionable::Link(url)) => assert_eq!(url, "https://elsewhere"),
        _ => panic!("expected a link"),
    }
}

#[test]
fn link_lists_render_with_a_next_page_loader() {
    let link = Link {
        title: "One".to_string(),
        date: "d".to_string(),
        url: "/a".to_string(),
        ..link_fields()
    };
    let html = render_links(&vec![link], "rust", "http://htmx", "http://base", Some(3));
    assert!(html.contains("<div class=\"list-item__title\">One</div>"));
    assert!(html.ends_with(
        " hx-get=\"http://htmx/links?search=rust&amp;offset=3\">Loading...</div>"
    ));

    let none = render_links(&Vec::new(), "rust", "http://htmx", "http://base", None);
    assert_eq!(none, "");

    assert_eq!(next_page_offset(20, None), Some(2));
    assert_eq!(next_page_offset(20, Some(2)), Some(3));
    assert_eq!(next_page_offset(19, Some(2)), None);
    assert_eq!(next_page_offset(0, None), None);
}

fn link_fields() -> Link {
    Link {
        title: String::new(),
        date: String::new(),
        url: String::new(),
        subtitle: String::new(),
        description: String::new(),
        image_url: None,
        image_alt: None,
        tags: Vec::new(),
    }
}

#[test]
fn navbar_renders_menu_logo_and_mobile_menu() {
    let html = navbar(get_navbar_props(&config(), &Page::Posts));
    // The logo links home and shows the site name.
    assert!(html.contains("<a class=\"pt-navbar-logo\" href=\"http://base\">"));
    assert!(html.contains("<h3 class=\"pt-navbar-logo__text\">Pastureen</h3>"));
    // The desktop menu holds both entries, the shown page marked active.
    assert!(html.contains(
        "<a class=\"pt-navbar-menu__item\" href=\"http://base\"><h5>Home</h5></a>"
    ));
    assert!(html.contains(
        "<a class=\"pt-navbar-menu__item pt-navbar-menu__item--active\" \
         href=\"http://base/posts.html\"><h5>Posts</h5></a>"
            .replace("         ", "")
            .as_str()
    ));
    // The mobile menu repeats them with a divider between.
    assert!(html.contains("<h2 class=\"mobile-menu-nav__title\">Menu</h2>"));
    assert!(html.contains("<div class=\"mobile-menu-divider\"></div>"));
    assert!(html.contains("mobile-menu-item--active"));
    // Both menu-button icons are present.
    assert!(html.contains("x-show=\"!open\""));
    assert!(html.contains("x-show=\"open\""));
}
