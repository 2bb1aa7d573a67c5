//! The refreshed blog: post metadata, the search results page, the index
//! page and the post pages.

use vstd::prelude::*;
use vstd::string::StringExecFns;

use crate::refresh_ui::{
    global_search_html, global_search_raw_seq, page, GlobalSearchProps, HtmxOptions, HtmxUrl,
    NavbarState, PageProps,
};
use crate::text::{attr, esc, opt_attr, opt_view};

verus! {

/// What can go wrong while configuring the blog.
#[derive(Debug, Clone)]
pub enum BlogError {
    /// A configuration value is missing; carries its name.
    EnvMissing(String),
}

/// Where the blog's assets, base and dynamic endpoint live.
#[derive(Debug, Clone)]
pub struct BlogConfig {
    pub assets_url: String,
    pub base_url: String,
    pub htmx_url: String,
}

/// The metadata of one post.
#[derive(Debug, Clone)]
pub struct PostMeta {
    pub title: String,
    pub date: String,
    pub tags: Vec<String>,
    pub slug: String,
}

/// What it takes to render a post: its metadata and its body as HTML.
#[derive(Debug, Clone)]
pub struct PostProps {
    pub meta: PostMeta,
    pub post_content_html: String,
}

/// A rendered post: its metadata and the full page.
#[derive(Debug, Clone)]
pub struct Post {
    pub meta: PostMeta,
    pub post_html: String,
}

/// What the search results page shows: optional suggestions, a heading,
/// the results, and a loading placeholder. All but the heading are
/// already-rendered markup, inserted as they stand.
#[derive(Debug, Clone)]
pub struct GlobalSearchResultsPageProps {
    pub suggestions: Option<String>,
    pub results_heading: Option<String>,
    pub results: Option<String>,
    pub loader: Option<String>,
}

impl Default for GlobalSearchResultsPageProps {
    /// An empty results page.
    fn default() -> (r: Self)
        ensures
            r.suggestions is None && r.results_heading is None && r.results is None
                && r.loader is None,
    {
        GlobalSearchResultsPageProps {
            suggestions: None,
            results_heading: None,
            results: None,
            loader: None,
        }
    }
}

/// The rendered search results page: suggestions and result list inside
/// the layout, and — when a loader is given — wrapped in a resource that
/// shows it while fetching.
pub open spec fn gs_results_html(
    suggestions: Option<Seq<char>>,
    heading: Option<Seq<char>>,
    results: Option<Seq<char>>,
    loader: Option<Seq<char>>,
) -> Seq<char> {
    let body = "<div class=\"global-search-results\">"@ + (match suggestions {
        Some(s) => "<div class=\"global-search-results__suggestions\">"@ + s + "</div>"@,
        None => Seq::empty(),
    }) + "<div class=\"global-search-results__items global-search-result-items\">"@ + (
    match heading {
        Some(h) => "<div class=\"global-search-result-items__heading\"><div class=\"heading heading--md\">"@
            + esc(h) + "</div></div>"@,
        None => Seq::empty(),
    }) + (match results {
        Some(r) => "<div class=\"global-search-result-items__list\">"@ + r + "</div>"@,
        None => Seq::empty(),
    }) + "</div></div>"@;
    "<div class=\"layout-container\"><div class=\"layout\">"@ + (match loader {
        Some(l) => "<div class=\"resource\"><div class=\"resource__content\">"@ + body
            + "</div><div class=\"resource__loader\">"@ + l + "</div></div>"@,
        None => body,
    }) + "</div></div>"@
}

/// Render the search results page.
#[verifier::rlimit(100)]
pub fn render_global_search_results_page(props: GlobalSearchResultsPageProps) -> (r: String)
    ensures
        r@ == gs_results_html(
            opt_view(props.suggestions),
            opt_view(props.results_heading),
            opt_view(props.results),
            opt_view(props.loader),
        ),
{
    let mut body = String::new();
    body.append("<div class=\"global-search-results\">");
    match &props.suggestions {
        Some(s) => {
            body.append("<div class=\"global-search-results__suggestions\">");
            body.append(s.as_str());
            body.append("</div>");
        },
        None => {},
    }
    body.append("<div class=\"global-search-results__items global-search-result-items\">");
    match &props.results_heading {
        Some(h) => {
            body.append(
                "<div class=\"global-search-result-items__heading\"><div class=\"heading heading--md\">",
            );
            body.append(crate::text::escape_html(h.as_str()).as_str());
            body.append("</div></div>");
        },
        None => {},
    }
    match &props.results {
        Some(res) => {
            body.append("<div class=\"global-search-result-items__list\">");
            body.append(res.as_str());
            body.append("</div>");
        },
        None => {},
    }
    body.append("</div></div>");
    let ghost spec_body = "<div class=\"global-search-results\">"@ + (match opt_view(
        props.suggestions,
    ) {
        Some(sg) => "<div class=\"global-search-results__suggestions\">"@ + sg + "</div>"@,
        None => Seq::<char>::empty(),
    }) + "<div class=\"global-search-results__items global-search-result-items\">"@ + (
    match opt_view(props.results_heading) {
        Some(h) => "<div class=\"global-search-result-items__heading\"><div class=\"heading heading--md\">"@
            + esc(h) + "</div></div>"@,
        None => Seq::<char>::empty(),
    }) + (match opt_view(props.results) {
        Some(res) => "<div class=\"global-search-result-items__list\">"@ + res + "</div>"@,
        None => Seq::<char>::empty(),
    }) + "</div></div>"@;
    proof {
        assert(body@ =~= spec_body);
    }
    let mut out = String::new();
    out.append("<div class=\"layout-container\"><div class=\"layout\">");
    match &props.loader {
        Some(l) => {
            out.append("<div class=\"resource\"><div class=\"resource__content\">");
            out.append(body.as_str());
            out.append("</div><div class=\"resource__loader\">");
            out.append(l.as_str());
            out.append("</div></div>");
        },
        None => {
            out.append(body.as_str());
        },
    }
    out.append("</div></div>");
    proof {
        assert(out@ =~= "<div class=\"layout-container\"><div class=\"layout\">"@ + (
        match opt_view(props.loader) {
            Some(l) => "<div class=\"resource\"><div class=\"resource__content\">"@ + spec_body
                + "</div><div class=\"resource__loader\">"@ + l + "</div></div>"@,
            None => spec_body,
        }) + "</div></div>"@);
        assert(out@ == gs_results_html(
            opt_view(props.suggestions),
            opt_view(props.results_heading),
            opt_view(props.results),
            opt_view(props.loader),
        ));
    }
    out
}

pub const GITHUB_SVG: &'static str =
    "<svg class=\"index-socials__item\" xmlns=\"http://www.w3.org/2000/svg\" x=\"0px\" y=\"0px\" viewBox=\"0 0 30 30\"><path d=\"M15,3C8.373,3,3,8.373,3,15c0,5.623,3.872,10.328,9.092,11.63C12.036,26.468,12,26.28,12,26.047v-2.051 c-0.487,0-1.303,0-1.508,0c-0.821,0-1.551-0.353-1.905-1.009c-0.393-0.729-0.461-1.844-1.435-2.526 c-0.289-0.227-0.069-0.486,0.264-0.451c0.615,0.174,1.125,0.596,1.605,1.222c0.478,0.627,0.703,0.769,1.596,0.769 c0.433,0,1.081-0.025,1.691-0.121c0.328-0.833,0.895-1.6,1.588-1.962c-3.996-0.411-5.903-2.399-5.903-5.098 c0-1.162,0.495-2.286,1.336-3.233C9.053,10.647,8.706,8.73,9.435,8c1.798,0,2.885,1.166,3.146,1.481C13.477,9.174,14.461,9,15.495,9 c1.036,0,2.024,0.174,2.922,0.483C18.675,9.17,19.763,8,21.565,8c0.732,0.731,0.381,2.656,0.102,3.594 c0.836,0.945,1.328,2.066,1.328,3.226c0,2.697-1.904,4.684-5.894,5.097C18.199,20.49,19,22.1,19,23.313v2.734 c0,0.104-0.023,0.179-0.035,0.268C23.641,24.676,27,20.236,27,15C27,8.373,21.627,3,15,3z\"></path></svg>";

pub const LINKEDIN_SVG: &'static str =
    "<svg class=\"index-socials__item\" xmlns=\"http://www.w3.org/2000/svg\" x=\"0px\" y=\"0px\" viewBox=\"0 0 30 30\"><path d=\"M24,4H6C4.895,4,4,4.895,4,6v18c0,1.105,0.895,2,2,2h18c1.105,0,2-0.895,2-2V6C26,4.895,25.105,4,24,4z M10.954,22h-2.95 v-9.492h2.95V22z M9.449,11.151c-0.951,0-1.72-0.771-1.72-1.72c0-0.949,0.77-1.719,1.72-1.719c0.948,0,1.719,0.771,1.719,1.719 C11.168,10.38,10.397,11.151,9.449,11.151z M22.004,22h-2.948v-4.616c0-1.101-0.02-2.517-1.533-2.517 c-1.535,0-1.771,1.199-1.771,2.437V22h-2.948v-9.492h2.83v1.297h0.04c0.394-0.746,1.356-1.533,2.791-1.533 c2.987,0,3.539,1.966,3.539,4.522V22z\"></path></svg>";

pub const EMAIL_SVG: &'static str =
    "<svg class=\"index-socials__item\" xmlns=\"http://www.w3.org/2000/svg\" x=\"0px\" y=\"0px\" viewBox=\"0 0 50 50\"><path d=\"M12 23.403V23.39 10.389L11.88 10.3h-.01L9.14 8.28C7.47 7.04 5.09 7.1 3.61 8.56 2.62 9.54 2 10.9 2 12.41v3.602L12 23.403zM38 23.39v.013l10-7.391V12.41c0-1.49-.6-2.85-1.58-3.83-1.46-1.457-3.765-1.628-5.424-.403L38.12 10.3 38 10.389V23.39zM14 24.868l10.406 7.692c.353.261.836.261 1.189 0L36 24.868V11.867L25 20l-11-8.133V24.868zM38 25.889V41c0 .552.448 1 1 1h6.5c1.381 0 2.5-1.119 2.5-2.5V18.497L38 25.889zM12 25.889L2 18.497V39.5C2 40.881 3.119 42 4.5 42H11c.552 0 1-.448 1-1V25.889z\"></path></svg>";

/// The GitHub icon of the landing page's social links.
pub fn github_svg() -> (r: String)
    ensures
        r@ == GITHUB_SVG@,
{
    String::from_str(GITHUB_SVG)
}

/// The LinkedIn icon of the landing page's social links.
pub fn linkedin_svg() -> (r: String)
    ensures
        r@ == LINKEDIN_SVG@,
{
    String::from_str(LINKEDIN_SVG)
}

/// The email icon of the landing page's social links.
pub fn email_svg() -> (r: String)
    ensures
        r@ == EMAIL_SVG@,
{
    String::from_str(EMAIL_SVG)
}

pub const INDEX_ABOUT: &'static str =
    "Pastureen is a mix-mash of the words \"pasture\" and \"green\".\n                            It comes from Psalm 23 in the Bible.\n                            As I live my life out, build my projects and technologies, I hope to do so resting peacefully amongst green pastures God, my Shepherd, has provided for me.\n                            Pastureen is a creative outlet for me to share my journey and ideas about technologies, faith and other various facets of my life.";

/// The landing page's body: the splash with logo, title and social
/// links, and the section telling what the site is.
pub open spec fn index_body_html(assets_url: Seq<char>, base_url: Seq<char>) -> Seq<char> {
    "<div class=\"index-page\" x-data><div class=\"index-page__landing index-page-landing\"><div class=\"index-page-landing__body index-splash\"><img class=\"index-splash__logo pixel-art\""@
        + attr("src"@, assets_url + "/logo.png"@)
        + " alt=\"Pastureen Logo\"></img><h1 class=\"index-splash__title\">Pastu<span>reen</span></h1><h4 class=\"index-splash__subtitle\">David's Blog</h4><a class=\"button button--small\""@
        + attr("href"@, base_url + "#pastureen"@)
        + ">What is this?</a></div><div class=\"index-page-landing__footer index-socials\"><a href=\"https://github.com/brahms116\">"@
        + GITHUB_SVG@ + "</a><a href=\"mailto:davidkwong17@gmail.com\">"@ + EMAIL_SVG@
        + "</a><a href=\"https://www.linkedin.com/in/david-kwong-a4323b206/\">"@ + LINKEDIN_SVG@
        + "</a></div></div><div class=\"index-page__pastureen prose\"><div class=\"layout-container\"><div class=\"layout\"><h2 id=\"pastureen\">Pastureen</h2><p>"@
        + esc(INDEX_ABOUT@)
        + "</p><div class=\"button\" x-on:click=\"$dispatch('openglobalsearch')\">Search me</div></div></div></div></div>"@
}

/// The results body both blog pages start their search bar with: only a
/// loading placeholder, filled in once recent posts arrive.
pub open spec fn recent_posts_body() -> Seq<char> {
    gs_results_html(
        None,
        None,
        None,
        Some("<div class=\"loader\">fetching recent posts...</div>"@),
    )
}

/// The request attributes of a search input posting to this address.
pub open spec fn search_url_block(url: Seq<char>) -> Seq<char> {
    opt_attr("hx-get"@, None) + opt_attr("hx-post"@, Some(url)) + opt_attr("hx-put"@, None)
        + opt_attr("hx-delete"@, None)
}

/// The blog pages' global search bar: closed, posting the query to the
/// dynamic endpoint's search route.
pub open spec fn blog_gs_html(
    base_url: Seq<char>,
    assets_url: Seq<char>,
    htmx_url: Seq<char>,
) -> Seq<char> {
    crate::refresh_ui::alpine_fix(
        global_search_raw_seq(
            "{ isOpen: false, searchInput: '"@ + "' }"@,
            base_url,
            assets_url,
            search_url_block(htmx_url + "/search"@),
            "fromQuery, "@ + "focus, keyup changed delay:100ms"@,
            opt_attr("hx-swap"@, Some("innerHTML"@)),
            opt_attr("hx-target"@, Some(".global-search__body"@)),
            opt_attr("hx-indicator"@, Some(".resource"@)),
            recent_posts_body(),
        ),
    )
}

/// The blog pages' search bar props.
fn blog_search_props(config: &BlogConfig) -> (r: GlobalSearchProps)
    ensures
        global_search_html(r) == blog_gs_html(
            config.base_url@,
            config.assets_url@,
            config.htmx_url@,
        ),
{
    let mut search_url = String::new();
    search_url.append(config.htmx_url.as_str());
    search_url.append("/search");
    let search_body = render_global_search_results_page(
        GlobalSearchResultsPageProps {
            loader: Some(String::from_str("<div class=\"loader\">fetching recent posts...</div>")),
            suggestions: None,
            results_heading: None,
            results: None,
        },
    );
    let r = GlobalSearchProps {
        base_url: config.base_url.clone(),
        assets_url: config.assets_url.clone(),
        state: NavbarState::Closed,
        input_options: HtmxOptions {
            trigger: Some(String::from_str("focus, keyup changed delay:100ms")),
            target: Some(String::from_str(".global-search__body")),
            url: Some(HtmxUrl::Post(search_url)),
            swap: Some(String::from_str("innerHTML")),
            indicator: Some(String::from_str(".resource")),
        },
        search_body,
    };
    proof {
        assert(global_search_html(r) =~= blog_gs_html(
            config.base_url@,
            config.assets_url@,
            config.htmx_url@,
        ));
    }
    r
}

/// The rendered landing page.
pub open spec fn index_page_html(
    assets_url: Seq<char>,
    base_url: Seq<char>,
    htmx_url: Seq<char>,
) -> Seq<char> {
    crate::refresh_ui::page_html(
        "Pastureen"@,
        Seq::empty(),
        index_body_html(assets_url, base_url),
        blog_gs_html(base_url, assets_url, htmx_url),
    )
}

/// Render the landing page.
pub fn render_index_page(config: BlogConfig) -> (r: String)
    ensures
        r@ == index_page_html(config.assets_url@, config.base_url@, config.htmx_url@),
{
    let gs = blog_search_props(&config);
    let mut body = String::new();
    body.append(
        "<div class=\"index-page\" x-data><div class=\"index-page__landing index-page-landing\"><div class=\"index-page-landing__body index-splash\"><img class=\"index-splash__logo pixel-art\"",
    );
    let mut logo = String::new();
    logo.append(config.assets_url.as_str());
    logo.append("/logo.png");
    crate::text::push_attr(&mut body, "src", logo.as_str());
    body.append(
        " alt=\"Pastureen Logo\"></img><h1 class=\"index-splash__title\">Pastu<span>reen</span></h1><h4 class=\"index-splash__subtitle\">David's Blog</h4><a class=\"button button--small\"",
    );
    let mut about_link = String::new();
    about_link.append(config.base_url.as_str());
    about_link.append("#pastureen");
    crate::text::push_attr(&mut body, "href", about_link.as_str());
    body.append(
        ">What is this?</a></div><div class=\"index-page-landing__footer index-socials\"><a href=\"https://github.com/brahms116\">",
    );
    body.append(GITHUB_SVG);
    body.append("</a><a href=\"mailto:davidkwong17@gmail.com\">");
    body.append(EMAIL_SVG);
    body.append("</a><a href=\"https://www.linkedin.com/in/david-kwong-a4323b206/\">");
    body.append(LINKEDIN_SVG);
    body.append(
        "</a></div></div><div class=\"index-page__pastureen prose\"><div class=\"layout-container\"><div class=\"layout\"><h2 id=\"pastureen\">Pastureen</h2><p>",
    );
    body.append(crate::text::escape_html(INDEX_ABOUT).as_str());
    body.append(
        "</p><div class=\"button\" x-on:click=\"$dispatch('openglobalsearch')\">Search me</div></div></div></div></div>",
    );
    proof {
        assert(body@ =~= index_body_html(config.assets_url@, config.base_url@));
    }
    let out = page(
        PageProps {
            title: String::from_str("Pastureen"),
            css_src: String::new(),
            custom_css: String::new(),
            body,
            global_search_props: gs,
        },
    );
    proof {
        reveal_strlit("Pastureen");
        assert(out@ =~= index_page_html(config.assets_url@, config.base_url@, config.htmx_url@));
    }
    out
}

/// The tag line of a post: each tag behind a hash, separated by spaces.
pub open spec fn tags_text(tags: Seq<Seq<char>>) -> Seq<char>
    decreases tags.len(),
{
    if tags.len() == 0 {
        Seq::empty()
    } else if tags.len() == 1 {
        "#"@ + tags[0]
    } else {
        tags_text(tags.drop_last()) + " #"@ + tags.last()
    }
}

/// Build the tag line of a post.
fn build_tags_text(tags: &Vec<String>) -> (r: String)
    ensures
        r@ == tags_text(tags.deep_view()),
{
    let ghost t = tags.deep_view();
    proof {
        assert forall|k: int| 0 <= k < t.len() implies #[trigger] t[k] == tags@[k]@ by {}
    }
    let mut out = String::new();
    let mut i: usize = 0;
    while i < tags.len()
        invariant
            0 <= i <= tags@.len(),
            t == tags.deep_view(),
            t.len() == tags@.len(),
            forall|k: int| 0 <= k < t.len() ==> #[trigger] t[k] == tags@[k]@,
            out@ == tags_text(t.take(i as int)),
        decreases tags@.len() - i,
    {
        proof {
            assert(t.take(i + 1).drop_last() =~= t.take(i as int));
            assert(t.take(i + 1).last() == t[i as int]);
        }
        if i == 0 {
            out.append("#");
        } else {
            out.append(" #");
        }
        out.append(tags[i].as_str());
        proof {
            assert(out@ =~= tags_text(t.take(i + 1)));
        }
        i = i + 1;
    }
    proof {
        assert(t.take(t.len() as int) =~= t);
    }
    out
}

/// A post's body: title, date, the tag line, and the post's content as
/// it stands.
pub open spec fn post_body_html(
    title: Seq<char>,
    date: Seq<char>,
    tags_line: Seq<char>,
    content: Seq<char>,
) -> Seq<char> {
    "<div class=\"layout-container\"><div class=\"layout\"><div class=\"post\"><h1 class=\"post__title heading heading--lg\">"@
        + esc(title) + "</h1><h3 class=\"post__date\">"@ + esc(date)
        + "</h3><div class=\"post__tags\">"@ + esc(tags_line)
        + "</div><div class=\"post__content prose\">"@ + content + "</div></div></div></div>"@
}

/// The rendered page of one post.
pub open spec fn post_page_html(
    assets_url: Seq<char>,
    base_url: Seq<char>,
    htmx_url: Seq<char>,
    title: Seq<char>,
    date: Seq<char>,
    tags: Seq<Seq<char>>,
    content: Seq<char>,
) -> Seq<char> {
    crate::refresh_ui::page_html(
        title,
        Seq::empty(),
        post_body_html(title, date, tags_text(tags), content),
        blog_gs_html(base_url, assets_url, htmx_url),
    )
}

/// Render the page of one post.
pub fn render_post_page(config: BlogConfig, props: PostProps) -> (r: String)
    ensures
        r@ == post_page_html(
            config.assets_url@,
            config.base_url@,
            config.htmx_url@,
            props.meta.title@,
            props.meta.date@,
            props.meta.tags.deep_view(),
            props.post_content_html@,
        ),
{
    let gs = blog_search_props(&config);
    let tags_line = build_tags_text(&props.meta.tags);
    let mut body = String::new();
    body.append(
        "<div class=\"layout-container\"><div class=\"layout\"><div class=\"post\"><h1 class=\"post__title heading heading--lg\">",
    );
    body.append(crate::text::escape_html(props.meta.title.as_str()).as_str());
    body.append("</h1><h3 class=\"post__date\">");
    body.append(crate::text::escape_html(props.meta.date.as_str()).as_str());
    body.append("</h3><div class=\"post__tags\">");
    body.append(crate::text::escape_html(tags_line.as_str()).as_str());
    body.append("</div><div class=\"post__content prose\">");
    body.append(props.post_content_html.as_str());
    body.append("</div></div></div></div>");
    proof {
        assert(body@ =~= post_body_html(
            props.meta.title@,
            props.meta.date@,
            tags_text(props.meta.tags.deep_view()),
            props.post_content_html@,
        ));
    }
    let title = props.meta.title.clone();
    let out = page(
        PageProps {
            title,
            css_src: String::new(),
            custom_css: String::new(),
            body,
            global_search_props: gs,
        },
    );
    proof {
        assert(out@ =~= post_page_html(
            config.assets_url@,
            config.base_url@,
            config.htmx_url@,
            props.meta.title@,
            props.meta.date@,
            props.meta.tags.deep_view(),
            props.post_content_html@,
        ));
    }
    out
}

/// Render a post: its metadata carried over, and its page rendered.
pub fn render_post(page_config: BlogConfig, props: PostProps) -> (r: Post)
    ensures
        r.meta.title@ == props.meta.title@,
        r.meta.date@ == props.meta.date@,
        r.meta.slug@ == props.meta.slug@,
        r.meta.tags.deep_view() == props.meta.tags.deep_view(),
        r.post_html@ == post_page_html(
            page_config.assets_url@,
            page_config.base_url@,
            page_config.htmx_url@,
            props.meta.title@,
            props.meta.date@,
            props.meta.tags.deep_view(),
            props.post_content_html@,
        ),
{
    let mut tags: Vec<String> = Vec::new();
    let mut i: usize = 0;
    while i < props.meta.tags.len()
        invariant
            0 <= i <= props.meta.tags@.len(),
            tags@.len() == i,
            forall|k: int| 0 <= k < i ==> #[trigger] tags@[k] == props.meta.tags@[k],
        decreases props.meta.tags@.len() - i,
    {
        tags.push(props.meta.tags[i].clone());
        i = i + 1;
    }
    let meta = PostMeta {
        title: props.meta.title.clone(),
        date: props.meta.date.clone(),
        tags,
        slug: props.meta.slug.clone(),
    };
    proof {
        assert(meta.tags.deep_view() =~= props.meta.tags.deep_view());
    }
    let post_html = render_post_page(page_config, props);
    Post { meta, post_html }
}

} // verus!
