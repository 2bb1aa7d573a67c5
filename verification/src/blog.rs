//! The first blog's pages: the navbar wiring and the post page.

use vstd::prelude::*;
use vstd::string::StringExecFns;

use crate::components::{layout, layout_html, nav_views, LayoutProps, NavItemProps, NavItemView, NavbarProps};
use crate::refresh_blog::{BlogConfig, Post, PostMeta, PostProps};
use crate::text::esc;

verus! {

/// Which page of the site is shown, for the navbar's active entry.
#[derive(Debug, Clone, Copy, PartialEq, Eq, Structural)]
pub enum Page {
    Index,
    Posts,
}

/// The address of the site's stylesheet.
pub fn get_pastureen_css_src(config: &BlogConfig) -> (r: String)
    ensures
        r@ == config.assets_url@ + "/styles.css"@,
{
    let mut out = String::new();
    out.append(config.assets_url.as_str());
    out.append("/styles.css");
    out
}

/// The navbar of every page: Home and Posts, with the shown page marked
/// active, and the logo linking home.
pub fn get_navbar_props(config: &BlogConfig, page: &Page) -> (r: NavbarProps)
    ensures
        r.nav_items@.len() == 2,
        r.nav_items@[0].link@ == config.base_url@,
        r.nav_items@[0].text@ == "Home"@,
        r.nav_items@[0].is_active == (*page is Index),
        r.nav_items@[1].link@ == config.base_url@ + "/posts.html"@,
        r.nav_items@[1].text@ == "Posts"@,
        r.nav_items@[1].is_active == (*page is Posts),
        r.logo_link@ == config.base_url@,
        r.logo_text@ == "Pastureen"@,
        r.logo_src@ == config.assets_url@ + "/logo.png"@,
{
    let index_link = config.base_url.clone();
    let mut posts_link = String::new();
    posts_link.append(config.base_url.as_str());
    posts_link.append("/posts.html");
    let mut logo_src = String::new();
    logo_src.append(config.assets_url.as_str());
    logo_src.append("/logo.png");
    let mut nav_items: Vec<NavItemProps> = Vec::new();
    nav_items.push(
        NavItemProps {
            link: index_link.clone(),
            text: String::from_str("Home"),
            is_active: match page {
                Page::Index => true,
                Page::Posts => false,
            },
        },
    );
    nav_items.push(
        NavItemProps {
            link: posts_link,
            text: String::from_str("Posts"),
            is_active: match page {
                Page::Index => false,
                Page::Posts => true,
            },
        },
    );
    NavbarProps {
        nav_items,
        logo_link: index_link,
        logo_text: String::from_str("Pastureen"),
        logo_src,
    }
}

/// The tags of a post, each in its own tag element.
pub open spec fn tags_html(tags: Seq<Seq<char>>) -> Seq<char>
    decreases tags.len(),
{
    if tags.len() == 0 {
        Seq::empty()
    } else {
        tags_html(tags.drop_last()) + "<div class=\"tag\">"@ + esc(tags.last()) + "</div>"@
    }
}

/// A post's body: title, date, tags, and the post's content as it
/// stands.
pub open spec fn post_body_html(
    title: Seq<char>,
    date: Seq<char>,
    tags: Seq<Seq<char>>,
    content: Seq<char>,
) -> Seq<char> {
    "<div class=\"content-wrapper\"><div class=\"content\"><div class=\"post\"><h1 class=\"post__title\">"@
        + esc(title) + "</h1><h3 class=\"post__date\">"@ + esc(date)
        + "</h3><div class=\"post__tags\">"@ + tags_html(tags)
        + "</div><div class=\"post__content\">"@ + content + "</div></div></div></div>"@
}

/// The navbar entries of every page: Home and Posts, the shown page
/// marked active.
pub open spec fn blog_nav(base_url: Seq<char>, page: Page) -> Seq<NavItemView> {
    seq![
        NavItemView { link: base_url, text: "Home"@, is_active: page is Index },
        NavItemView {
            link: base_url + "/posts.html"@,
            text: "Posts"@,
            is_active: page is Posts,
        },
    ]
}

/// The rendered page of one post: the post's body under the site layout,
/// with the Posts navbar entry active.
pub open spec fn post_page_html(
    assets_url: Seq<char>,
    base_url: Seq<char>,
    title: Seq<char>,
    date: Seq<char>,
    tags: Seq<Seq<char>>,
    content: Seq<char>,
) -> Seq<char> {
    layout_html(
        "Pastureen - "@ + title,
        assets_url + "/styles.css"@,
        Seq::empty(),
        blog_nav(base_url, Page::Posts),
        base_url,
        "Pastureen"@,
        assets_url + "/logo.png"@,
        post_body_html(title, date, tags, content),
    )
}

/// Render the page of one post.
pub fn render_post_page(page_config: BlogConfig, props: PostProps) -> (r: String)
    ensures
        r@ == post_page_html(
            page_config.assets_url@,
            page_config.base_url@,
            props.meta.title@,
            props.meta.date@,
            props.meta.tags.deep_view(),
            props.post_content_html@,
        ),
{
    let ghost t = props.meta.tags.deep_view();
    proof {
        assert forall|k: int| 0 <= k < t.len() implies #[trigger] t[k]
            == props.meta.tags@[k]@ by {}
    }
    let mut body = String::new();
    body.append(
        "<div class=\"content-wrapper\"><div class=\"content\"><div class=\"post\"><h1 class=\"post__title\">",
    );
    body.append(crate::text::escape_html(props.meta.title.as_str()).as_str());
    body.append("</h1><h3 class=\"post__date\">");
    body.append(crate::text::escape_html(props.meta.date.as_str()).as_str());
    body.append("</h3><div class=\"post__tags\">");
    let mut i: usize = 0;
    let ghost mid = body@;
    proof {
        assert(body@ =~= mid + tags_html(t.take(0)));
    }
    while i < props.meta.tags.len()
        invariant
            0 <= i <= props.meta.tags@.len(),
            t == props.meta.tags.deep_view(),
            t.len() == props.meta.tags@.len(),
            forall|k: int| 0 <= k < t.len() ==> #[trigger] t[k] == props.meta.tags@[k]@,
            body@ == mid + tags_html(t.take(i as int)),
        decreases props.meta.tags@.len() - i,
    {
        proof {
            assert(t.take(i + 1).drop_last() =~= t.take(i as int));
            assert(t.take(i + 1).last() == t[i as int]);
        }
        body.append("<div class=\"tag\">");
        body.append(crate::text::escape_html(props.meta.tags[i].as_str()).as_str());
        body.append("</div>");
        proof {
            assert(body@ =~= mid + tags_html(t.take(i + 1)));
        }
        i = i + 1;
    }
    proof {
        assert(t.take(t.len() as int) =~= t);
    }
    body.append("</div><div class=\"post__content\">");
    body.append(props.post_content_html.as_str());
    body.append("</div></div></div></div>");
    proof {
        assert(body@ =~= post_body_html(
            props.meta.title@,
            props.meta.date@,
            t,
            props.post_content_html@,
        ));
    }
    let mut title = String::new();
    title.append("Pastureen - ");
    title.append(props.meta.title.as_str());
    let navbar_props = get_navbar_props(&page_config, &Page::Posts);
    proof {
        assert(nav_views(navbar_props.nav_items@) =~= blog_nav(page_config.base_url@, Page::Posts));
    }
    let out = layout(
        LayoutProps {
            title,
            css_src: get_pastureen_css_src(&page_config),
            custom_css: String::new(),
            navbar_props,
            body,
        },
    );
    proof {
        assert(out@ =~= post_page_html(
            page_config.assets_url@,
            page_config.base_url@,
            props.meta.title@,
            props.meta.date@,
            t,
            props.post_content_html@,
        ));
    }
    out
}

/// Render a post: its metadata carried over, and its page rendered.
pub fn render_post(page_config: BlogConfig, props: PostProps) -> (r: Post)
    ensures
        r.meta.title@ == props.meta.title@,
        r.meta.date@ == props.meta.date@,
        r.meta.slug@ == props.meta.slug@,
        r.meta.tags.deep_view() == props.meta.tags.deep_view(),
        r.post_html@ == post_page_html(
            page_config.assets_url@,
            page_config.base_url@,
            props.meta.title@,
            props.meta.date@,
            props.meta.tags.deep_view(),
            props.post_content_html@,
        ),
{
    let mut tags: Vec<String> = Vec::new();
    let mut i: usize = 0;
    while i < props.meta.tags.len()
        invariant
            0 <= i <= props.meta.tags@.len(),
            tags@.len() == i,
            forall|k: int| 0 <= k < i ==> #[trigger] tags@[k] == props.meta.tags@[k],
        decreases props.meta.tags@.len() - i,
    {
        tags.push(props.meta.tags[i].clone());
        i = i + 1;
    }
    let meta = PostMeta {
        title: props.meta.title.clone(),
        date: props.meta.date.clone(),
        tags,
        slug: props.meta.slug.clone(),
    };
    proof {
        assert(meta.tags.deep_view() =~= props.meta.tags.deep_view());
    }
    let post_html = render_post_page(page_config, props);
    Post { meta, post_html }
}

} // verus!
