//! The first site's shared HTML components: the page layout and its
//! navbar.

use vstd::prelude::*;
use vstd::string::StringExecFns;

use crate::text::{attr, esc, push_attr};

verus! {

/// One entry of the navbar.
#[derive(Debug, Clone)]
pub struct NavItemProps {
    pub link: String,
    pub text: String,
    pub is_active: bool,
}

/// What the navbar shows: its entries and the logo.
#[derive(Debug, Clone)]
pub struct NavbarProps {
    pub nav_items: Vec<NavItemProps>,
    pub logo_link: String,
    pub logo_text: String,
    pub logo_src: String,
}

/// What a page needs: its title, a stylesheet address, inline styles,
/// the navbar, and the body. The styles and the body are
/// already-rendered markup, inserted as they stand.
pub struct LayoutProps {
    pub title: String,
    pub css_src: String,
    pub custom_css: String,
    pub navbar_props: NavbarProps,
    pub body: String,
}

/// Mathematical model of one navbar entry.
pub ghost struct NavItemView {
    pub link: Seq<char>,
    pub text: Seq<char>,
    pub is_active: bool,
}

impl View for NavItemProps {
    type V = NavItemView;

    open spec fn view(&self) -> NavItemView {
        NavItemView { link: self.link@, text: self.text@, is_active: self.is_active }
    }
}

/// The views of a row of navbar entries.
pub open spec fn nav_views(items: Seq<NavItemProps>) -> Seq<NavItemView> {
    items.map_values(|p: NavItemProps| p@)
}

pub const OPEN_MENU_SVG: &'static str =
    "<svg class=\"pt-navbar-mobile-menu-button__icon\" x-show=\"!open\" xmlns=\"http://www.w3.org/2000/svg\" fill=\"none\" viewBox=\"0 0 24 24\" stroke-width=\"1.5\"><path stroke-linecap=\"round\" stroke-linejoin=\"round\" d=\"M3.75 5.25h16.5m-16.5 4.5h16.5m-16.5 4.5h16.5m-16.5 4.5h16.5\"></path></svg>";

pub const CLOSE_MENU_SVG: &'static str =
    "<svg class=\"pt-navbar-mobile-menu-button__icon\" x-show=\"open\" xmlns=\"http://www.w3.org/2000/svg\" fill=\"none\" viewBox=\"0 0 24 24\" stroke-width=\"1.5\"><path stroke-linecap=\"round\" stroke-linejoin=\"round\" d=\"M6 18L18 6M6 6l12 12\"></path></svg>";

/// The logo block of the navbar: the logo image and the logo text,
/// linking home.
pub open spec fn navbar_logo_html(
    logo_link: Seq<char>,
    logo_text: Seq<char>,
    logo_src: Seq<char>,
) -> Seq<char> {
    "<a class=\"pt-navbar-logo\""@ + attr("href"@, logo_link)
        + "><img class=\"pt-navbar-logo__logo\""@ + attr("src"@, logo_src)
        + " alt=\"logo\"></img><h3 class=\"pt-navbar-logo__text\">"@ + esc(logo_text)
        + "</h3></a>"@
}

/// One entry of the desktop menu, with its active modifier.
pub open spec fn nav_menu_item_html(item: NavItemView) -> Seq<char> {
    "<a class=\"pt-navbar-menu__item"@ + (if item.is_active {
        " pt-navbar-menu__item--active"@
    } else {
        Seq::empty()
    }) + "\""@ + attr("href"@, item.link) + "><h5>"@ + esc(item.text) + "</h5></a>"@
}

/// The desktop menu's entries, one after the other.
pub open spec fn nav_menu_html(items: Seq<NavItemView>) -> Seq<char>
    decreases items.len(),
{
    if items.len() == 0 {
        Seq::empty()
    } else {
        nav_menu_html(items.drop_last()) + nav_menu_item_html(items.last())
    }
}

/// One entry of the mobile menu, with its active modifier.
pub open spec fn mobile_menu_item_html(item: NavItemView) -> Seq<char> {
    "<a class=\"mobile-menu-item"@ + (if item.is_active {
        " mobile-menu-item--active"@
    } else {
        Seq::empty()
    }) + "\""@ + attr("href"@, item.link) + "><h5>"@ + esc(item.text) + "</h5></a>"@
}

/// The mobile menu's entries, a divider between each pair.
pub open spec fn mobile_menu_html(items: Seq<NavItemView>) -> Seq<char>
    decreases items.len(),
{
    if items.len() == 0 {
        Seq::empty()
    } else if items.len() == 1 {
        mobile_menu_item_html(items[0])
    } else {
        mobile_menu_html(items.drop_last()) + "<div class=\"mobile-menu-divider\"></div>"@
            + mobile_menu_item_html(items.last())
    }
}

/// The rendered navbar: the logo and the desktop menu, the mobile-menu
/// button, and the slide-in mobile menu, all under one client-side open
/// state.
pub open spec fn navbar_html(
    nav: Seq<NavItemView>,
    logo_link: Seq<char>,
    logo_text: Seq<char>,
    logo_src: Seq<char>,
) -> Seq<char> {
    "<div x-data=\"{open: false}\"><div class=\"pt-navbar\">"@ + navbar_logo_html(
        logo_link,
        logo_text,
        logo_src,
    )
        + "<div class=\"pt-navbar-mobile-menu-button\" x-on:click=\"open = !open; document.body.style.overflowY = 'hidden'\">"@
        + OPEN_MENU_SVG@ + "</div><div class=\"pt-navbar-menu\">"@ + nav_menu_html(nav)
        + "</div></div><div class=\"mobile-menu\" x-bind:style=\"open ? 'transform: translateX(-100%);' : 'transform: translateX(0%);'\"><div class=\"pt-navbar\">"@
        + navbar_logo_html(logo_link, logo_text, logo_src)
        + "<div class=\"pt-navbar-mobile-menu-button\" x-on:click=\"open = !open; document.body.style.overflowY = 'auto'\">"@
        + CLOSE_MENU_SVG@
        + "</div></div><div class=\"content-wrapper\"><div class=\"content\"><div class=\"mobile-menu__nav\"><div class=\"mobile-menu-nav\"><h2 class=\"mobile-menu-nav__title\">Menu</h2><div class=\"mobile-menu-nav__list\">"@
        + mobile_menu_html(nav) + "</div></div></div></div></div></div></div>"@
}

/// Append the navbar's logo block.
fn push_navbar_logo(out: &mut String, props: &NavbarProps)
    ensures
        final(out)@ == old(out)@ + navbar_logo_html(
            props.logo_link@,
            props.logo_text@,
            props.logo_src@,
        ),
{
    let ghost pre = out@;
    out.append("<a class=\"pt-navbar-logo\"");
    push_attr(out, "href", props.logo_link.as_str());
    out.append("><img class=\"pt-navbar-logo__logo\"");
    push_attr(out, "src", props.logo_src.as_str());
    out.append(" alt=\"logo\"></img><h3 class=\"pt-navbar-logo__text\">");
    out.append(crate::text::escape_html(props.logo_text.as_str()).as_str());
    out.append("</h3></a>");
    proof {
        assert(out@ =~= pre + navbar_logo_html(
            props.logo_link@,
            props.logo_text@,
            props.logo_src@,
        ));
    }
}

/// Render the navbar.
pub fn navbar(props: NavbarProps) -> (r: String)
    ensures
        r@ == navbar_html(
            nav_views(props.nav_items@),
            props.logo_link@,
            props.logo_text@,
            props.logo_src@,
        ),
{
    let ghost nav = nav_views(props.nav_items@);
    proof {
        assert forall|k: int| 0 <= k < nav.len() implies #[trigger] nav[k]
            == props.nav_items@[k]@ by {}
    }
    let mut out = String::new();
    out.append("<div x-data=\"{open: false}\"><div class=\"pt-navbar\">");
    push_navbar_logo(&mut out, &props);
    out.append(
        "<div class=\"pt-navbar-mobile-menu-button\" x-on:click=\"open = !open; document.body.style.overflowY = 'hidden'\">",
    );
    out.append(OPEN_MENU_SVG);
    out.append("</div><div class=\"pt-navbar-menu\">");
    let mut i: usize = 0;
    let ghost mid = out@;
    proof {
        assert(out@ =~= mid + nav_menu_html(nav.take(0)));
    }
    while i < props.nav_items.len()
        invariant
            0 <= i <= props.nav_items@.len(),
            nav == nav_views(props.nav_items@),
            nav.len() == props.nav_items@.len(),
            forall|k: int| 0 <= k < nav.len() ==> #[trigger] nav[k] == props.nav_items@[k]@,
            out@ == mid + nav_menu_html(nav.take(i as int)),
        decreases props.nav_items@.len() - i,
    {
        proof {
            assert(nav.take(i + 1).drop_last() =~= nav.take(i as int));
            assert(nav.take(i + 1).last() == nav[i as int]);
        }
        out.append("<a class=\"pt-navbar-menu__item");
        if props.nav_items[i].is_active {
            out.append(" pt-navbar-menu__item--active");
        }
        out.append("\"");
        push_attr(&mut out, "href", props.nav_items[i].link.as_str());
        out.append("><h5>");
        out.append(crate::text::escape_html(props.nav_items[i].text.as_str()).as_str());
        out.append("</h5></a>");
        proof {
            assert(out@ =~= mid + nav_menu_html(nav.take(i + 1)));
        }
        i = i + 1;
    }
    proof {
        assert(nav.take(nav.len() as int) =~= nav);
    }
    out.append(
        "</div></div><div class=\"mobile-menu\" x-bind:style=\"open ? 'transform: translateX(-100%);' : 'transform: translateX(0%);'\"><div class=\"pt-navbar\">",
    );
    push_navbar_logo(&mut out, &props);
    out.append(
        "<div class=\"pt-navbar-mobile-menu-button\" x-on:click=\"open = !open; document.body.style.overflowY = 'auto'\">",
    );
    out.append(CLOSE_MENU_SVG);
    out.append(
        "</div></div><div class=\"content-wrapper\"><div class=\"content\"><div class=\"mobile-menu__nav\"><div class=\"mobile-menu-nav\"><h2 class=\"mobile-menu-nav__title\">Menu</h2><div class=\"mobile-menu-nav__list\">",
    );
    let mut j: usize = 0;
    let ghost mid2 = out@;
    proof {
        assert(out@ =~= mid2 + mobile_menu_html(nav.take(0)));
    }
    while j < props.nav_items.len()
        invariant
            0 <= j <= props.nav_items@.len(),
            nav == nav_views(props.nav_items@),
            nav.len() == props.nav_items@.len(),
            forall|k: int| 0 <= k < nav.len() ==> #[trigger] nav[k] == props.nav_items@[k]@,
            out@ == mid2 + mobile_menu_html(nav.take(j as int)),
        decreases props.nav_items@.len() - j,
    {
        proof {
            assert(nav.take(j + 1).drop_last() =~= nav.take(j as int));
            assert(nav.take(j + 1).last() == nav[j as int]);
        }
        if j > 0 {
            out.append("<div class=\"mobile-menu-divider\"></div>");
        }
        out.append("<a class=\"mobile-menu-item");
        if props.nav_items[j].is_active {
            out.append(" mobile-menu-item--active");
        }
        out.append("\"");
        push_attr(&mut out, "href", props.nav_items[j].link.as_str());
        out.append("><h5>");
        out.append(crate::text::escape_html(props.nav_items[j].text.as_str()).as_str());
        out.append("</h5></a>");
        proof {
            assert(out@ =~= mid2 + mobile_menu_html(nav.take(j + 1)));
        }
        j = j + 1;
    }
    proof {
        assert(nav.take(nav.len() as int) =~= nav);
    }
    out.append("</div></div></div></div></div></div></div>");
    proof {
        assert(out@ =~= navbar_html(
            nav,
            props.logo_link@,
            props.logo_text@,
            props.logo_src@,
        ));
    }
    out
}

/// The script and stylesheet includes every page carries.
pub const LAYOUT_DEPS: &'static str =
    "<script src=\"https://unpkg.com/htmx.org@1.9.5\" integrity=\"sha384-xcuj3WpfgjlKF+FXhSQFQ0ZNr39ln+hwjN3npfM9VBnUskLolQAcN80McRIVOPuO\" crossorigin=\"anonymous\"></script><link rel=\"preconnect\" href=\"https://fonts.gstatic.com\" crossorigin><link rel=\"preconnect\" href=\"https://fonts.googleapis.com\"><link href=\"https://fonts.googleapis.com/css2?family=PT+Mono&amp;display=swap\" rel=\"stylesheet\"><link rel=\"stylesheet\" href=\"https://unpkg.com/tailwindcss@3.3.3/src/css/preflight.css\"><script src=\"//unpkg.com/alpinejs\" defer></script>";

/// A rendered page: the head with its title, meta tags, includes,
/// stylesheet link and inline styles; the body with the navbar and the
/// page's own body.
pub open spec fn layout_html(
    title: Seq<char>,
    css_src: Seq<char>,
    custom_css: Seq<char>,
    nav: Seq<NavItemView>,
    logo_link: Seq<char>,
    logo_text: Seq<char>,
    logo_src: Seq<char>,
    body: Seq<char>,
) -> Seq<char> {
    "<html><head><title>"@ + esc(title)
        + "</title><meta charset=\"utf-8\"><meta name=\"viewport\" content=\"width=device-width, initial-scale=1\"></meta>"@
        + LAYOUT_DEPS@ + "<link rel=\"stylesheet\""@ + attr("href"@, css_src) + "><style>"@
        + custom_css + "</style></head><body>"@ + navbar_html(nav, logo_link, logo_text, logo_src)
        + body + "</body></html>"@
}

/// Render a page.
pub fn layout(props: LayoutProps) -> (r: String)
    ensures
        r@ == layout_html(
            props.title@,
            props.css_src@,
            props.custom_css@,
            nav_views(props.navbar_props.nav_items@),
            props.navbar_props.logo_link@,
            props.navbar_props.logo_text@,
            props.navbar_props.logo_src@,
            props.body@,
        ),
{
    let mut out = String::new();
    out.append("<html><head><title>");
    out.append(crate::text::escape_html(props.title.as_str()).as_str());
    out.append(
        "</title><meta charset=\"utf-8\"><meta name=\"viewport\" content=\"width=device-width, initial-scale=1\"></meta>",
    );
    out.append(LAYOUT_DEPS);
    out.append("<link rel=\"stylesheet\"");
    push_attr(&mut out, "href", props.css_src.as_str());
    out.append("><style>");
    out.append(props.custom_css.as_str());
    out.append("</style></head><body>");
    out.append(navbar(props.navbar_props).as_str());
    out.append(props.body.as_str());
    out.append("</body></html>");
    proof {
        assert(out@ =~= layout_html(
            props.title@,
            props.css_src@,
            props.custom_css@,
            nav_views(props.navbar_props.nav_items@),
            props.navbar_props.logo_link@,
            props.navbar_props.logo_text@,
            props.navbar_props.logo_src@,
            props.body@,
        ));
    }
    out
}

/// What an action menu entry does.
#[derive(Debug, Clone)]
pub enum ActionItemProps {
    Link { link: String, text: String },
    Htmx { text: String, action_target: String, action_indicator: String, action_link: String },
}

/// The entries of an action menu.
#[derive(Debug, Clone)]
pub struct ActionMenuProps {
    pub items: Vec<ActionItemProps>,
}

/// An image with its alternative text.
#[derive(Debug, Clone)]
pub struct ImageProps {
    pub src: String,
    pub alt: String,
}

/// One entry of a resource list.
#[derive(Debug, Clone)]
pub struct ListItemProps {
    pub image: Option<ImageProps>,
    pub title: String,
    pub link: Option<String>,
    pub subtitle: String,
    pub action_menu: Option<ActionMenuProps>,
    pub tags: Option<Vec<String>>,
}

} // verus!
