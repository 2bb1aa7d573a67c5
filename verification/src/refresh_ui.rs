//! The refreshed site's HTML components, rendered as plain text with the
//! interpolated values escaped.

use vstd::prelude::*;
use vstd::string::StringExecFns;

use crate::text::{
    attr, esc, opt_attr, opt_view, push_attr, push_opt_attr, replace, spec_replace,
};

verus! {

/// What clicking or loading a component does: follow a link, fire a
/// dynamic request, or run a client-side expression.
pub enum Actionable {
    Link(String),
    Htmx(HtmxOptions),
    Alpine(String),
}

/// A dynamic request's address, by method.
pub enum HtmxUrl {
    Get(String),
    Post(String),
    Put(String),
    Delete(String),
}

/// The address of a dynamic request, sorted into one field per method.
pub struct DerivedHtmxUrls {
    pub get: Option<String>,
    pub post: Option<String>,
    pub put: Option<String>,
    pub delete: Option<String>,
}

impl Default for DerivedHtmxUrls {
    /// No address for any method.
    fn default() -> (r: Self)
        ensures
            r.get is None && r.post is None && r.put is None && r.delete is None,
    {
        DerivedHtmxUrls { get: None, post: None, put: None, delete: None }
    }
}

impl From<HtmxUrl> for DerivedHtmxUrls {
    /// Sort an address under its method, leaving the other methods empty.
    fn from(url: HtmxUrl) -> (r: Self) {
        match url {
            HtmxUrl::Get(url) => DerivedHtmxUrls {
                get: Some(url),
                post: None,
                put: None,
                delete: None,
            },
            HtmxUrl::Post(url) => DerivedHtmxUrls {
                get: None,
                post: Some(url),
                put: None,
                delete: None,
            },
            HtmxUrl::Put(url) => DerivedHtmxUrls {
                get: None,
                post: None,
                put: Some(url),
                delete: None,
            },
            HtmxUrl::Delete(url) => DerivedHtmxUrls {
                get: None,
                post: None,
                put: None,
                delete: Some(url),
            },
        }
    }
}

impl vstd::std_specs::convert::FromSpecImpl<HtmxUrl> for DerivedHtmxUrls {
    open spec fn obeys_from_spec() -> bool {
        true
    }

    open spec fn from_spec(url: HtmxUrl) -> Self {
        match url {
            HtmxUrl::Get(url) => DerivedHtmxUrls {
                get: Some(url),
                post: None,
                put: None,
                delete: None,
            },
            HtmxUrl::Post(url) => DerivedHtmxUrls {
                get: None,
                post: Some(url),
                put: None,
                delete: None,
            },
            HtmxUrl::Put(url) => DerivedHtmxUrls {
                get: None,
                post: None,
                put: Some(url),
                delete: None,
            },
            HtmxUrl::Delete(url) => DerivedHtmxUrls {
                get: None,
                post: None,
                put: None,
                delete: Some(url),
            },
        }
    }
}

/// How a component's dynamic behaviour is wired.
pub struct HtmxOptions {
    pub target: Option<String>,
    pub url: Option<HtmxUrl>,
    pub swap: Option<String>,
    pub trigger: Option<String>,
    pub indicator: Option<String>,
}

/// The address of an optional dynamic request, per method.
pub open spec fn url_get(url: Option<HtmxUrl>) -> Option<Seq<char>> {
    match url {
        Some(HtmxUrl::Get(u)) => Some(u@),
        _ => None,
    }
}

pub open spec fn url_post(url: Option<HtmxUrl>) -> Option<Seq<char>> {
    match url {
        Some(HtmxUrl::Post(u)) => Some(u@),
        _ => None,
    }
}

pub open spec fn url_put(url: Option<HtmxUrl>) -> Option<Seq<char>> {
    match url {
        Some(HtmxUrl::Put(u)) => Some(u@),
        _ => None,
    }
}

pub open spec fn url_delete(url: Option<HtmxUrl>) -> Option<Seq<char>> {
    match url {
        Some(HtmxUrl::Delete(u)) => Some(u@),
        _ => None,
    }
}

/// The four method attributes of a component's dynamic request.
pub open spec fn url_attrs(url: Option<HtmxUrl>) -> Seq<char> {
    opt_attr("hx-get"@, url_get(url)) + opt_attr("hx-post"@, url_post(url)) + opt_attr(
        "hx-put"@,
        url_put(url),
    ) + opt_attr("hx-delete"@, url_delete(url))
}

/// Append the four method attributes.
fn push_url_attrs(out: &mut String, url: &Option<HtmxUrl>)
    ensures
        final(out)@ == old(out)@ + url_attrs(*url),
{
    let ghost pre = out@;
    match url {
        Some(HtmxUrl::Get(u)) => {
            push_opt_attr(out, "hx-get", &Some(u.clone()));
        },
        Some(HtmxUrl::Post(u)) => {
            push_opt_attr(out, "hx-post", &Some(u.clone()));
        },
        Some(HtmxUrl::Put(u)) => {
            push_opt_attr(out, "hx-put", &Some(u.clone()));
        },
        Some(HtmxUrl::Delete(u)) => {
            push_opt_attr(out, "hx-delete", &Some(u.clone()));
        },
        None => {},
    }
    proof {
        assert(out@ =~= pre + url_attrs(*url));
    }
}

/// The dynamic-behaviour attributes shared by the list item and menu item
/// components: the request addresses, then trigger, swap, target and
/// indicator.
pub open spec fn htmx_attrs(o: HtmxOptions) -> Seq<char> {
    url_attrs(o.url) + opt_attr("hx-trigger"@, opt_view(o.trigger)) + opt_attr(
        "hx-swap"@,
        opt_view(o.swap),
    ) + opt_attr("hx-target"@, opt_view(o.target)) + opt_attr(
        "hx-indicator"@,
        opt_view(o.indicator),
    )
}

/// Append the shared dynamic-behaviour attributes.
fn push_htmx_attrs(out: &mut String, o: &HtmxOptions)
    ensures
        final(out)@ == old(out)@ + htmx_attrs(*o),
{
    let ghost pre = out@;
    push_url_attrs(out, &o.url);
    push_opt_attr(out, "hx-trigger", &o.trigger);
    push_opt_attr(out, "hx-swap", &o.swap);
    push_opt_attr(out, "hx-target", &o.target);
    push_opt_attr(out, "hx-indicator", &o.indicator);
    proof {
        assert(out@ =~= pre + htmx_attrs(*o));
    }
}

/// One entry of a list: up to three lines of text and what clicking it
/// does.
pub struct ListItemProps {
    pub title: String,
    pub subtitle: String,
    pub tertiary: String,
    pub actionable: Option<Actionable>,
}

/// The three text lines of a list item.
pub open spec fn list_item_body(title: Seq<char>, subtitle: Seq<char>, tertiary: Seq<char>) -> Seq<
    char,
> {
    "<div class=\"list-item__title\">"@ + esc(title) + "</div><div class=\"list-item__subtitle\">"@
        + esc(subtitle) + "</div><div class=\"list-item__tertiary\">"@ + esc(tertiary) + "</div>"@
}

/// A rendered list item: a plain card, a link-wrapped card, a client-side
/// click handler, or a dynamic request, by its actionable.
pub open spec fn list_item_html(p: ListItemProps) -> Seq<char> {
    let body = list_item_body(p.title@, p.subtitle@, p.tertiary@);
    match p.actionable {
        Some(Actionable::Link(url)) => "<a"@ + attr("href"@, url@) + "><div class=\"list-item\">"@
            + body + "</div></a>"@,
        Some(Actionable::Alpine(expr)) => "<div class=\"list-item\""@ + attr(
            "x-on:click"@,
            expr@,
        ) + ">"@ + body + "</div>"@,
        Some(Actionable::Htmx(o)) => "<div class=\"list-item\""@ + htmx_attrs(o) + ">"@ + body
            + "</div>"@,
        None => "<div class=\"list-item\">"@ + body + "</div>"@,
    }
}

fn push_list_item_body(out: &mut String, title: &str, subtitle: &str, tertiary: &str)
    ensures
        final(out)@ == old(out)@ + list_item_body(title@, subtitle@, tertiary@),
{
    let ghost pre = out@;
    out.append("<div class=\"list-item__title\">");
    out.append(crate::text::escape_html(title).as_str());
    out.append("</div><div class=\"list-item__subtitle\">");
    out.append(crate::text::escape_html(subtitle).as_str());
    out.append("</div><div class=\"list-item__tertiary\">");
    out.append(crate::text::escape_html(tertiary).as_str());
    out.append("</div>");
    proof {
        assert(out@ =~= pre + list_item_body(title@, subtitle@, tertiary@));
    }
}

/// Render one list item.
pub fn list_item(props: ListItemProps) -> (r: String)
    ensures
        r@ == list_item_html(props),
{
    let mut out = String::new();
    match &props.actionable {
        Some(Actionable::Link(url)) => {
            out.append("<a");
            push_attr(&mut out, "href", url.as_str());
            out.append("><div class=\"list-item\">");
            push_list_item_body(
                &mut out,
                props.title.as_str(),
                props.subtitle.as_str(),
                props.tertiary.as_str(),
            );
            out.append("</div></a>");
        },
        Some(Actionable::Alpine(expr)) => {
            out.append("<div class=\"list-item\"");
            push_attr(&mut out, "x-on:click", expr.as_str());
            out.append(">");
            push_list_item_body(
                &mut out,
                props.title.as_str(),
                props.subtitle.as_str(),
                props.tertiary.as_str(),
            );
            out.append("</div>");
        },
        Some(Actionable::Htmx(o)) => {
            out.append("<div class=\"list-item\"");
            push_htmx_attrs(&mut out, o);
            out.append(">");
            push_list_item_body(
                &mut out,
                props.title.as_str(),
                props.subtitle.as_str(),
                props.tertiary.as_str(),
            );
            out.append("</div>");
        },
        None => {
            out.append("<div class=\"list-item\">");
            push_list_item_body(
                &mut out,
                props.title.as_str(),
                props.subtitle.as_str(),
                props.tertiary.as_str(),
            );
            out.append("</div>");
        },
    }
    proof {
        assert(out@ =~= list_item_html(props));
    }
    out
}

/// The entries of a list.
pub struct ListProps {
    pub items: Vec<ListItemProps>,
}

/// A rendered list: its items, one after the other.
pub open spec fn list_html(items: Seq<ListItemProps>) -> Seq<char>
    decreases items.len(),
{
    if items.len() == 0 {
        Seq::empty()
    } else {
        list_html(items.drop_last()) + list_item_html(items.last())
    }
}

/// Render a list of items.
pub fn list(props: ListProps) -> (r: String)
    ensures
        r@ == list_html(props.items@),
{
    let mut out = String::new();
    let items = props.items;
    let mut i: usize = 0;
    proof {
        assert(out@ =~= list_html(items@.take(0)));
    }
    while i < items.len()
        invariant
            0 <= i <= items@.len(),
            out@ == list_html(items@.take(i as int)),
        decreases items@.len() - i,
    {
        proof {
            assert(items@.take(i + 1).drop_last() =~= items@.take(i as int));
            assert(items@.take(i + 1).last() == items@[i as int]);
        }
        let item = ListItemProps {
            title: items[i].title.clone(),
            subtitle: items[i].subtitle.clone(),
            tertiary: items[i].tertiary.clone(),
            actionable: clone_actionable(&items[i].actionable),
        };
        assert(item == items@[i as int]);
        out.append(list_item(item).as_str());
        i = i + 1;
    }
    proof {
        assert(items@.take(items@.len() as int) =~= items@);
    }
    out
}

fn clone_actionable(a: &Option<Actionable>) -> (r: Option<Actionable>)
    ensures
        r == *a,
{
    match a {
        Some(Actionable::Link(url)) => Some(Actionable::Link(url.clone())),
        Some(Actionable::Alpine(expr)) => Some(Actionable::Alpine(expr.clone())),
        Some(Actionable::Htmx(o)) => Some(
            Actionable::Htmx(
                HtmxOptions {
                    target: clone_opt_string(&o.target),
                    url: clone_url(&o.url),
                    swap: clone_opt_string(&o.swap),
                    trigger: clone_opt_string(&o.trigger),
                    indicator: clone_opt_string(&o.indicator),
                },
            ),
        ),
        None => None,
    }
}

fn clone_opt_string(s: &Option<String>) -> (r: Option<String>)
    ensures
        r == *s,
{
    match s {
        Some(x) => Some(x.clone()),
        None => None,
    }
}

fn clone_url(u: &Option<HtmxUrl>) -> (r: Option<HtmxUrl>)
    ensures
        r == *u,
{
    match u {
        Some(HtmxUrl::Get(x)) => Some(HtmxUrl::Get(x.clone())),
        Some(HtmxUrl::Post(x)) => Some(HtmxUrl::Post(x.clone())),
        Some(HtmxUrl::Put(x)) => Some(HtmxUrl::Put(x.clone())),
        Some(HtmxUrl::Delete(x)) => Some(HtmxUrl::Delete(x.clone())),
        None => None,
    }
}

/// A loading placeholder that fetches content when triggered.
pub struct LoaderProps {
    pub text: String,
    pub htmx_options: HtmxOptions,
}

/// The loader's dynamic attributes: the request addresses, then trigger,
/// swap and target.
pub open spec fn loader_attrs(o: HtmxOptions) -> Seq<char> {
    url_attrs(o.url) + opt_attr("hx-trigger"@, opt_view(o.trigger)) + opt_attr(
        "hx-swap"@,
        opt_view(o.swap),
    ) + opt_attr("hx-target"@, opt_view(o.target))
}

/// A rendered loader.
pub open spec fn loader_html(p: LoaderProps) -> Seq<char> {
    "<div class=\"loader\""@ + loader_attrs(p.htmx_options) + ">"@ + esc(p.text@) + "</div>"@
}

/// Render a loader.
pub fn loader(props: LoaderProps) -> (r: String)
    ensures
        r@ == loader_html(props),
{
    let mut out = String::new();
    out.append("<div class=\"loader\"");
    push_url_attrs(&mut out, &props.htmx_options.url);
    push_opt_attr(&mut out, "hx-trigger", &props.htmx_options.trigger);
    push_opt_attr(&mut out, "hx-swap", &props.htmx_options.swap);
    push_opt_attr(&mut out, "hx-target", &props.htmx_options.target);
    out.append(">");
    out.append(crate::text::escape_html(props.text.as_str()).as_str());
    out.append("</div>");
    proof {
        assert(out@ =~= loader_html(props));
    }
    out
}

/// One entry of a menu: a label and what clicking it does.
pub struct MenuItemProps {
    pub label: String,
    pub actionable: Option<Actionable>,
}

/// A rendered menu item, by its actionable.
pub open spec fn menu_item_html(p: MenuItemProps) -> Seq<char> {
    match p.actionable {
        Some(Actionable::Link(url)) => "<div class=\"menu-item\"><a"@ + attr("href"@, url@) + ">"@
            + esc(p.label@) + "</a></div>"@,
        Some(Actionable::Alpine(expr)) => "<div class=\"menu-item\""@ + attr(
            "x-on:click-stop"@,
            expr@,
        ) + ">"@ + esc(p.label@) + "</div>"@,
        Some(Actionable::Htmx(o)) => "<div class=\"menu-item\""@ + htmx_attrs(o) + ">"@ + esc(
            p.label@,
        ) + "</div>"@,
        None => "<div class=\"menu-item\">"@ + esc(p.label@) + "</div>"@,
    }
}

/// Render one menu item.
pub fn menu_item(props: MenuItemProps) -> (r: String)
    ensures
        r@ == menu_item_html(props),
{
    let mut out = String::new();
    match &props.actionable {
        Some(Actionable::Link(url)) => {
            out.append("<div class=\"menu-item\"><a");
            push_attr(&mut out, "href", url.as_str());
            out.append(">");
            out.append(crate::text::escape_html(props.label.as_str()).as_str());
            out.append("</a></div>");
        },
        Some(Actionable::Alpine(expr)) => {
            out.append("<div class=\"menu-item\"");
            push_attr(&mut out, "x-on:click-stop", expr.as_str());
            out.append(">");
            out.append(crate::text::escape_html(props.label.as_str()).as_str());
            out.append("</div>");
        },
        Some(Actionable::Htmx(o)) => {
            out.append("<div class=\"menu-item\"");
            push_htmx_attrs(&mut out, o);
            out.append(">");
            out.append(crate::text::escape_html(props.label.as_str()).as_str());
            out.append("</div>");
        },
        None => {
            out.append("<div class=\"menu-item\">");
            out.append(crate::text::escape_html(props.label.as_str()).as_str());
            out.append("</div>");
        },
    }
    proof {
        assert(out@ =~= menu_item_html(props));
    }
    out
}

/// A labelled group of menu items.
pub struct MenuSectionProps {
    pub label: String,
    pub items: Vec<MenuItemProps>,
}

/// The menu sections.
pub struct MenuProps {
    pub sections: Vec<MenuSectionProps>,
}

/// The items of a section, one after the other.
pub open spec fn menu_items_html(items: Seq<MenuItemProps>) -> Seq<char>
    decreases items.len(),
{
    if items.len() == 0 {
        Seq::empty()
    } else {
        menu_items_html(items.drop_last()) + menu_item_html(items.last())
    }
}

/// A rendered menu section: its label and its items.
pub open spec fn menu_section_html(p: MenuSectionProps) -> Seq<char> {
    "<div class=\"menu-section\"><div class=\"menu-section__label\">"@ + esc(p.label@)
        + "</div><div class=\"menu-section__items\">"@ + menu_items_html(p.items@)
        + "</div></div>"@
}

/// Render one menu section.
pub fn menu_section(props: MenuSectionProps) -> (r: String)
    ensures
        r@ == menu_section_html(props),
{
    let mut out = String::new();
    out.append("<div class=\"menu-section\"><div class=\"menu-section__label\">");
    out.append(crate::text::escape_html(props.label.as_str()).as_str());
    out.append("</div><div class=\"menu-section__items\">");
    let items = props.items;
    let mut i: usize = 0;
    let ghost mid = out@;
    while i < items.len()
        invariant
            0 <= i <= items@.len(),
            out@ == mid + menu_items_html(items@.take(i as int)),
        decreases items@.len() - i,
    {
        proof {
            assert(items@.take(i + 1).drop_last() =~= items@.take(i as int));
            assert(items@.take(i + 1).last() == items@[i as int]);
        }
        let item = MenuItemProps {
            label: items[i].label.clone(),
            actionable: clone_actionable(&items[i].actionable),
        };
        assert(item == items@[i as int]);
        out.append(menu_item(item).as_str());
        i = i + 1;
    }
    proof {
        assert(items@.take(items@.len() as int) =~= items@);
    }
    out.append("</div></div>");
    proof {
        assert(out@ =~= menu_section_html(props));
    }
    out
}

/// The sections of a menu, one after the other.
pub open spec fn menu_sections_html(sections: Seq<MenuSectionProps>) -> Seq<char>
    decreases sections.len(),
{
    if sections.len() == 0 {
        Seq::empty()
    } else {
        menu_sections_html(sections.drop_last()) + menu_section_html(sections.last())
    }
}

/// A rendered menu.
pub open spec fn menu_html(p: MenuProps) -> Seq<char> {
    "<div class=\"menu\"><div class=\"menu__secitons\">"@ + menu_sections_html(p.sections@)
        + "</div></div>"@
}

/// Render a menu.
pub fn menu(props: MenuProps) -> (r: String)
    ensures
        r@ == menu_html(props),
{
    let mut out = String::new();
    out.append("<div class=\"menu\"><div class=\"menu__secitons\">");
    let sections = props.sections;
    let mut i: usize = 0;
    let ghost mid = out@;
    while i < sections.len()
        invariant
            0 <= i <= sections@.len(),
            out@ == mid + menu_sections_html(sections@.take(i as int)),
        decreases sections@.len() - i,
    {
        proof {
            assert(sections@.take(i + 1).drop_last() =~= sections@.take(i as int));
            assert(sections@.take(i + 1).last() == sections@[i as int]);
        }
        let mut items: Vec<MenuItemProps> = Vec::new();
        let mut j: usize = 0;
        while j < sections[i].items.len()
            invariant
                0 <= i < sections@.len(),
                0 <= j <= sections@[i as int].items@.len(),
                items@ == sections@[i as int].items@.take(j as int),
            decreases sections@[i as int].items@.len() - j,
        {
            items.push(
                MenuItemProps {
                    label: sections[i].items[j].label.clone(),
                    actionable: clone_actionable(&sections[i].items[j].actionable),
                },
            );
            proof {
                assert(items@ =~= sections@[i as int].items@.take(j + 1));
            }
            j = j + 1;
        }
        proof {
            assert(sections@[i as int].items@.take(sections@[i as int].items@.len() as int)
                =~= sections@[i as int].items@);
        }
        let section = MenuSectionProps { label: sections[i].label.clone(), items };
        assert(menu_section_html(section) == menu_section_html(sections@[i as int]));
        out.append(menu_section(section).as_str());
        i = i + 1;
    }
    proof {
        assert(sections@.take(sections@.len() as int) =~= sections@);
    }
    out.append("</div></div>");
    proof {
        assert(out@ =~= menu_html(props));
    }
    out
}

/// Whether the global search bar starts open, and with what input.
pub enum NavbarState {
    Open { search_input: String },
    Closed,
}

/// What the global search component needs: where the site and its assets
/// live, the bar's starting state, how the input fires its requests, and
/// the body shown under the open bar (already-rendered markup, inserted
/// as it stands).
pub struct GlobalSearchProps {
    pub base_url: String,
    pub assets_url: String,
    pub state: NavbarState,
    pub input_options: HtmxOptions,
    pub search_body: String,
}

/// The client-side state expression of the search bar.
pub open spec fn x_data_text(state: NavbarState) -> Seq<char> {
    match state {
        NavbarState::Open { search_input } => "{ isOpen: true, searchInput: '"@ + search_input@
            + "' }"@,
        NavbarState::Closed => "{ isOpen: false, searchInput: '"@ + "' }"@,
    }
}

/// The input's trigger: the query-driven trigger, joined with the
/// configured one where there is one.
pub open spec fn resolved_trigger(trigger: Option<String>) -> Seq<char> {
    match trigger {
        Some(t) => "fromQuery, "@ + t@,
        None => "fromQuery"@,
    }
}

/// The global search component before the directive-spelling pass, over
/// its rendered pieces: the bar's state expression, the two addresses,
/// the input's request attributes, and the results body.
pub open spec fn global_search_raw_seq(
    x_data: Seq<char>,
    base_url: Seq<char>,
    assets_url: Seq<char>,
    url_block: Seq<char>,
    trigger: Seq<char>,
    swap_block: Seq<char>,
    target_block: Seq<char>,
    indicator_block: Seq<char>,
    search_body: Seq<char>,
) -> Seq<char> {
    "<div class=\"global-search\" id=\"global-search\""@ + attr("x-data"@, x_data)
        + attr("x-on:focusglobalsearch-window"@, GS_ON_FOCUS@) + attr(
        "x-on:openglobalsearch-window"@,
        GS_ON_OPEN@,
    ) + attr("x-on:closeglobalsearch-window"@, GS_ON_CLOSE@) + attr("x-init"@, GS_INIT@) + attr(
        "x-on:keydown-ctrl-k-window"@,
        GS_ON_CTRL_K@,
    ) + attr("x-on:keydown-esc-window"@, GS_ON_ESC@)
        + "><div class=\"global-search__navbar\"><div class=\"navbar\" x-bind:class=\"isOpen ? 'navbar--open' : 'navbar--closed'\"><a"@
        + attr("href"@, base_url) + "><img class=\"navbar__logo pixel-art\""@ + attr(
        "src"@,
        assets_url + "/logo.png"@,
    ) + " alt=\"Pastureen\"></img></a><div class=\"navbar__body navbar-body\" x-on:click=\"if (!isOpen) { $dispatch('openglobalsearch') }\"><input class=\"navbar-body__input\" x-ref=\"searchInput\" x-model=\"searchInput\" x-on:keydown-enter=\"$el.blur()\" placeholder=\"CLICK TO SEARCH\""@
        + url_block + attr("hx-trigger"@, trigger) + swap_block + target_block + indicator_block
        + " name=\"search\" type=\"text\"></input><div class=\"navbar-body__icon\" x-cloak x-on:click-stop=\"$dispatch('closeglobalsearch')\" x-show=\"isOpen\">"@
        + CLOSE_ICON@
        + "</div><div class=\"navbar-body__helptext\" x-cloak x-on:click-stop=\"$dispatch('closeglobalsearch')\" x-show=\"isOpen\">ESC</div><div class=\"navbar-body__icon\" x-show=\"!isOpen\">"@
        + SEARCH_ICON@
        + "</div><div class=\"navbar-body__helptext\" x-show=\"!isOpen\">CTRL+K</div></div></div></div><div class=\"global-search__body\" id=\"global-search-body\" x-cloak x-show=\"isOpen\" x-transition>"@
        + search_body + "</div></div>"@
}

/// The global search component before the directive-spelling pass.
pub open spec fn global_search_raw(p: GlobalSearchProps) -> Seq<char> {
    global_search_raw_seq(
        x_data_text(p.state),
        p.base_url@,
        p.assets_url@,
        url_attrs(p.input_options.url),
        resolved_trigger(p.input_options.trigger),
        opt_attr("hx-swap"@, opt_view(p.input_options.swap)),
        opt_attr("hx-target"@, opt_view(p.input_options.target)),
        opt_attr("hx-indicator"@, opt_view(p.input_options.indicator)),
        p.search_body@,
    )
}

/// The rendered global search component.
pub open spec fn global_search_html(p: GlobalSearchProps) -> Seq<char> {
    alpine_fix(global_search_raw(p))
}

pub const GS_ON_FOCUS: &'static str = "\n                setTimeout(() => {\n                    $refs.searchInput.focus() \n                    const value = $refs.searchInput.value\n                    $refs.searchInput.value = ''\n                    $refs.searchInput.value = value\n                }, 100)\n            ";

pub const GS_ON_OPEN: &'static str = "\n                isOpen = true\n                document.body.style.overflowY='hidden'\n                if ($event.detail.searchInput) {\n                    searchInput = $event.detail.searchInput\n                }\n                if (!$event.detail.isFromQuery) {\n                    $dispatch('focusglobalsearch')\n                } else {\n                    // We need to trigger the input manually\n                    $refs.searchInput.value = searchInput\n                    htmx.trigger($refs.searchInput, 'fromQuery')\n                }\n            ";

pub const GS_ON_CLOSE: &'static str = "\n                isOpen = false\n                $refs.searchInput.blur()\n                searchInput = ''\n                document.body.style.overflowY='auto'\n            ";

pub const GS_INIT: &'static str = "\n                $nextTick(() => {\n                    const querySearch = new URLSearchParams(window.location.search).get('global-search')\n                    if (querySearch) {\n                        searchInput = querySearch\n                        $dispatch('openglobalsearch', { isFromQuery: true })\n                    }\n                })\n            ";

pub const GS_ON_CTRL_K: &'static str =
    "if (!isOpen) { $event.preventDefault(); $dispatch('openglobalsearch') }";

pub const GS_ON_ESC: &'static str = "if (isOpen) { $dispatch('closeglobalsearch') }";

pub const CLOSE_ICON: &'static str =
    "<svg class=\"navbar-body__icon-svg\" xmlns=\"http://www.w3.org/2000/svg\" fill=\"none\" viewBox=\"0 0 24 24\" stroke-width=\"1.5\"><path stroke-linecap=\"round\" stroke-linejoin=\"round\" d=\"M6 18L18 6M6 6l12 12\"></path></svg>";

pub const SEARCH_ICON: &'static str =
    "<svg class=\"navbar-body__icon-svg\" xmlns=\"http://www.w3.org/2000/svg\" fill=\"none\" viewBox=\"0 0 24 24\" stroke-width=\"1.5\"><path stroke-linecap=\"round\" stroke-linejoin=\"round\" d=\"m21 21-5.197-5.197m0 0A7.5 7.5 0 1 0 5.196 5.196a7.5 7.5 0 0 0 10.607 10.607Z\"></path></svg>";

/// Render the global search component.
pub fn global_search(props: GlobalSearchProps) -> (r: String)
    ensures
        r@ == global_search_html(props),
{
    let mut out = String::new();
    out.append("<div class=\"global-search\" id=\"global-search\"");
    let mut x_data = String::new();
    match &props.state {
        NavbarState::Open { search_input } => {
            x_data.append("{ isOpen: true, searchInput: '");
            x_data.append(search_input.as_str());
            x_data.append("' }");
        },
        NavbarState::Closed => {
            x_data.append("{ isOpen: false, searchInput: '");
            x_data.append("' }");
        },
    }
    proof {
        assert(x_data@ =~= x_data_text(props.state));
    }
    push_attr(&mut out, "x-data", x_data.as_str());
    push_attr(&mut out, "x-on:focusglobalsearch-window", GS_ON_FOCUS);
    push_attr(&mut out, "x-on:openglobalsearch-window", GS_ON_OPEN);
    push_attr(&mut out, "x-on:closeglobalsearch-window", GS_ON_CLOSE);
    push_attr(&mut out, "x-init", GS_INIT);
    push_attr(&mut out, "x-on:keydown-ctrl-k-window", GS_ON_CTRL_K);
    push_attr(&mut out, "x-on:keydown-esc-window", GS_ON_ESC);
    out.append(
        "><div class=\"global-search__navbar\"><div class=\"navbar\" x-bind:class=\"isOpen ? 'navbar--open' : 'navbar--closed'\"><a",
    );
    push_attr(&mut out, "href", props.base_url.as_str());
    out.append("><img class=\"navbar__logo pixel-art\"");
    let mut logo = String::new();
    logo.append(props.assets_url.as_str());
    logo.append("/logo.png");
    push_attr(&mut out, "src", logo.as_str());
    out.append(
        " alt=\"Pastureen\"></img></a><div class=\"navbar__body navbar-body\" x-on:click=\"if (!isOpen) { $dispatch('openglobalsearch') }\"><input class=\"navbar-body__input\" x-ref=\"searchInput\" x-model=\"searchInput\" x-on:keydown-enter=\"$el.blur()\" placeholder=\"CLICK TO SEARCH\"",
    );
    push_url_attrs(&mut out, &props.input_options.url);
    let mut trig = String::new();
    match &props.input_options.trigger {
        Some(t) => {
            trig.append("fromQuery, ");
            trig.append(t.as_str());
        },
        None => {
            trig.append("fromQuery");
        },
    }
    proof {
        assert(trig@ =~= resolved_trigger(props.input_options.trigger));
    }
    push_attr(&mut out, "hx-trigger", trig.as_str());
    push_opt_attr(&mut out, "hx-swap", &props.input_options.swap);
    push_opt_attr(&mut out, "hx-target", &props.input_options.target);
    push_opt_attr(&mut out, "hx-indicator", &props.input_options.indicator);
    out.append(
        " name=\"search\" type=\"text\"></input><div class=\"navbar-body__icon\" x-cloak x-on:click-stop=\"$dispatch('closeglobalsearch')\" x-show=\"isOpen\">",
    );
    out.append(CLOSE_ICON);
    out.append(
        "</div><div class=\"navbar-body__helptext\" x-cloak x-on:click-stop=\"$dispatch('closeglobalsearch')\" x-show=\"isOpen\">ESC</div><div class=\"navbar-body__icon\" x-show=\"!isOpen\">",
    );
    out.append(SEARCH_ICON);
    out.append(
        "</div><div class=\"navbar-body__helptext\" x-show=\"!isOpen\">CTRL+K</div></div></div></div><div class=\"global-search__body\" id=\"global-search-body\" x-cloak x-show=\"isOpen\" x-transition>",
    );
    out.append(props.search_body.as_str());
    out.append("</div></div>");
    proof {
        assert(out@ =~= global_search_raw(props));
    }
    correct_alpine_directives(out.as_str())
}

/// What a full page needs: its title, a stylesheet address, inline
/// styles, the body, and the global search component's props. The styles
/// and the body are already-rendered markup, inserted as they stand.
pub struct PageProps {
    pub title: String,
    pub css_src: String,
    pub custom_css: String,
    pub body: String,
    pub global_search_props: GlobalSearchProps,
}

/// The same shape under the layout component's name.
pub struct LayoutProps {
    pub title: String,
    pub css_src: String,
    pub custom_css: String,
    pub body: String,
    pub global_search_props: GlobalSearchProps,
}

/// The site's own stylesheet, inlined into every page's head.
pub const REFRESH_CSS: &'static str = "";

/// The script and stylesheet includes every page carries.
pub const PAGE_DEPS: &'static str =
    "<script src=\"https://unpkg.com/htmx.org@1.9.5\" integrity=\"sha384-xcuj3WpfgjlKF+FXhSQFQ0ZNr39ln+hwjN3npfM9VBnUskLolQAcN80McRIVOPuO\" crossorigin=\"anonymous\"></script><link rel=\"preconnect\" href=\"https://fonts.gstatic.com\" crossorigin><link rel=\"preconnect\" href=\"https://fonts.googleapis.com\"><link href=\"https://fonts.googleapis.com/css2?family=PT+Mono&amp;display=swap\" rel=\"stylesheet\"><link rel=\"stylesheet\" href=\"https://unpkg.com/tailwindcss@3.3.3/src/css/preflight.css\"><script src=\"//unpkg.com/alpinejs\" defer></script>";

/// A rendered page: the head with its title, meta tags, includes, the
/// site stylesheet and the page's inline styles; the body with the
/// global search component, the navbar anchor, and the page's own body.
pub open spec fn page_html(
    title: Seq<char>,
    custom_css: Seq<char>,
    body: Seq<char>,
    gs_html: Seq<char>,
) -> Seq<char> {
    "<html><head><title>"@ + esc(title)
        + "</title><meta charset=\"utf-8\"><meta name=\"viewport\" content=\"width=device-width, initial-scale=1\"></meta>"@
        + PAGE_DEPS@ + "<style>"@ + REFRESH_CSS@ + "</style><style>"@ + custom_css
        + "</style></head><body>"@ + gs_html + "<div id=\"navbar-open-target\"></div>"@ + body
        + "</body></html>"@
}

/// Render a full page.
pub fn page(props: PageProps) -> (r: String)
    ensures
        r@ == page_html(
            props.title@,
            props.custom_css@,
            props.body@,
            global_search_html(props.global_search_props),
        ),
{
    let mut out = String::new();
    out.append("<html><head><title>");
    out.append(crate::text::escape_html(props.title.as_str()).as_str());
    out.append(
        "</title><meta charset=\"utf-8\"><meta name=\"viewport\" content=\"width=device-width, initial-scale=1\"></meta>",
    );
    out.append(PAGE_DEPS);
    out.append("<style>");
    out.append(REFRESH_CSS);
    out.append("</style><style>");
    out.append(props.custom_css.as_str());
    out.append("</style></head><body>");
    out.append(global_search(props.global_search_props).as_str());
    out.append("<div id=\"navbar-open-target\"></div>");
    out.append(props.body.as_str());
    out.append("</body></html>");
    proof {
        assert(out@ =~= page_html(
            props.title@,
            props.custom_css@,
            props.body@,
            global_search_html(props.global_search_props),
        ));
    }
    out
}

/// Render a full page under the layout component's name.
pub fn layout(props: LayoutProps) -> (r: String)
    ensures
        r@ == page_html(
            props.title@,
            props.custom_css@,
            props.body@,
            global_search_html(props.global_search_props),
        ),
{
    page(
        PageProps {
            title: props.title,
            css_src: props.css_src,
            custom_css: props.custom_css,
            body: props.body,
            global_search_props: props.global_search_props,
        },
    )
}

/// Correct the spelling of client-side event directives: the HTML
/// attribute grammar cannot carry dots, so the components spell them with
/// dashes and this pass restores the dots.
pub open spec fn alpine_fix(s: Seq<char>) -> Seq<char> {
    spec_replace(
        spec_replace(
            spec_replace(spec_replace(s, "x-on:click-"@, "x-on:click."@), "x-on:keydown-"@, "x-on:keydown."@),
            "ctrl-k-"@,
            "ctrl.k."@,
        ),
        "-window"@,
        ".window"@,
    )
}

/// Restore the dots in client-side event directives.
pub fn correct_alpine_directives(markup: &str) -> (r: String)
    ensures
        r@ == alpine_fix(markup@),
{
    proof {
        reveal_strlit("x-on:click-");
        reveal_strlit("x-on:keydown-");
        reveal_strlit("ctrl-k-");
        reveal_strlit("-window");
    }
    let a = replace(markup, "x-on:click-", "x-on:click.");
    let b = replace(a.as_str(), "x-on:keydown-", "x-on:keydown.");
    let c = replace(b.as_str(), "ctrl-k-", "ctrl.k.");
    replace(c.as_str(), "-window", ".window")
}

} // verus!
