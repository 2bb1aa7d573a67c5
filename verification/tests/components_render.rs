use pastureen::refresh_ui::{
    correct_alpine_directives, layout, list, list_item, loader, menu, menu_item, menu_section,
    page, Actionable, DerivedHtmxUrls, GlobalSearchProps, HtmxOptions, HtmxUrl, LayoutProps,
    ListItemProps, ListProps, LoaderProps, MenuItemProps, MenuProps, MenuSectionProps,
    NavbarState, PageProps,
};

fn plain_item(title: &str) -> ListItemProps {
    ListItemProps {
        title: title.to_string(),
        subtitle: "sub".to_string(),
        tertiary: "ter".to_string(),
        actionable: None,
    }
}

#[test]
fn plain_list_item_renders_its_lines() {
    let html = list_item(plain_item("Hello"));
    assert_eq!(
        html,
        "<div class=\"list-item\"><div class=\"list-item__title\">Hello</div>\
         <div class=\"list-item__subtitle\">sub</div>\
         <div class=\"list-item__tertiary\">ter</div></div>"
            .replace("         ", "")
    );
}

#[test]
fn interpolated_text_is_escaped() {
    let html = list_item(plain_item("a<b>&\"c\""));
    assert!(html.contains("a&lt;b&gt;&amp;&quot;c&quot;"));
    assert!(!html.contains("a<b>"));
}

#[test]
fn linked_list_item_wraps_in_an_anchor() {
    let mut item = plain_item("T");
    item.actionable = Some(Actionable::Link("/go".to_string()));
    let html = list_item(item);
    assert!(html.starts_with("<a href=\"/go\">"));
    assert!(html.ends_with("</a>"));
}

#[test]
fn htmx_list_item_carries_request_attributes() {
    let mut item = plain_item("T");
    item.actionable = Some(Actionable::Htmx(HtmxOptions {
        target: Some("#out".to_string()),
        url: Some(HtmxUrl::Get("/data".to_string())),
        swap: Some("outerHTML".to_string()),
        trigger: None,
        indicator: None,
    }));
    let html = list_item(item);
    assert!(html.contains(" hx-get=\"/data\""));
    assert!(html.contains(" hx-swap=\"outerHTML\""));
    assert!(html.contains(" hx-target=\"#out\""));
    assert!(!html.contains("hx-post"));
    assert!(!html.contains("hx-trigger"));
}

#[test]
fn lists_concatenate_their_items() {
    let html = list(ListProps { items: vec![plain_item("A"), plain_item("B")] });
    let a = list_item(plain_item("A"));
    let b = list_item(plain_item("B"));
    assert_eq!(html, format!("{}{}", a, b));
}

#[test]
fn loaders_show_their_text() {
    let html = loader(LoaderProps {
        text: "Loading...".to_string(),
        htmx_options: HtmxOptions {
            target: None,
            url: Some(HtmxUrl::Get("/more".to_string())),
            swap: Some("outerHTML".to_string()),
            trigger: Some("intersect once".to_string()),
            indicator: None,
        },
    });
    assert_eq!(
        html,
        "<div class=\"loader\" hx-get=\"/more\" hx-trigger=\"intersect once\" \
         hx-swap=\"outerHTML\">Loading...</div>"
            .replace("         ", "")
    );
}

#[test]
fn menus_nest_sections_and_items() {
    let html = menu(MenuProps {
        sections: vec![MenuSectionProps {
            label: "Main".to_string(),
            items: vec![MenuItemProps {
                label: "Home".to_string(),
                actionable: Some(Actionable::Link("/".to_string())),
            }],
        }],
    });
    let section = menu_section(MenuSectionProps {
        label: "Main".to_string(),
        items: vec![MenuItemProps {
            label: "Home".to_string(),
            actionable: Some(Actionable::Link("/".to_string())),
        }],
    });
    assert_eq!(
        html,
        format!("<div class=\"menu\"><div class=\"menu__secitons\">{}</div></div>", section)
    );
    assert!(section.contains("<div class=\"menu-section__label\">Main</div>"));
    assert!(section.contains(menu_item(MenuItemProps {
        label: "Home".to_string(),
        actionable: Some(Actionable::Link("/".to_string())),
    })
    .as_str()));
}

#[test]
fn alpine_directives_get_their_dots_back() {
    let fixed = correct_alpine_directives(
        "<div x-on:click-outside=\"f\" x-on:keydown-ctrl-k-window=\"g\"></div>",
    );
    assert_eq!(fixed, "<div x-on:click.outside=\"f\" x-on:keydown.ctrl.k.window=\"g\"></div>");
    assert_eq!(correct_alpine_directives("untouched"), "untouched");
}

#[test]
fn derived_urls_sort_by_method() {
    let d = DerivedHtmxUrls::from(HtmxUrl::Put("/u".to_string()));
    assert_eq!(d.put.as_deref(), Some("/u"));
    assert!(d.get.is_none() && d.post.is_none() && d.delete.is_none());
    let d2 = DerivedHtmxUrls::default();
    assert!(d2.get.is_none() && d2.post.is_none() && d2.put.is_none() && d2.delete.is_none());
}

fn gs_props() -> GlobalSearchProps {
    GlobalSearchProps {
        base_url: "http://base".to_string(),
        assets_url: "http://assets".to_string(),
        state: NavbarState::Closed,
        input_options: HtmxOptions {
            target: Some(".global-search__body".to_string()),
            url: Some(HtmxUrl::Post("http://htmx/search".to_string())),
            swap: Some("innerHTML".to_string()),
            trigger: Some("focus".to_string()),
            indicator: Some(".resource".to_string()),
        },
        search_body: "<p>results</p>".to_string(),
    }
}

#[test]
fn pages_nest_title_styles_and_body() {
    let html = page(PageProps {
        title: "My <Page>".to_string(),
        css_src: String::new(),
        custom_css: ".x{color:red}".to_string(),
        body: "<main>hi</main>".to_string(),
        global_search_props: gs_props(),
    });
    assert!(html.starts_with("<html><head><title>My &lt;Page&gt;</title>"));
    assert!(html.contains("<style>.x{color:red}</style>"));
    assert!(html.contains("<main>hi</main>"));
    assert!(html.ends_with("</body></html>"));
    // The search bar is wired to post the query.
    assert!(html.contains(" hx-post=\"http://htmx/search\""));
    assert!(html.contains(" hx-trigger=\"fromQuery, focus\""));
    // The directive-spelling pass ran over the search bar.
    assert!(html.contains("x-on:keydown.ctrl.k.window"));
    assert!(!html.contains("x-on:keydown-ctrl-k-window"));
}

#[test]
fn layout_matches_page() {
    let a = layout(LayoutProps {
        title: "T".to_string(),
        css_src: String::new(),
        custom_css: String::new(),
        body: "<b>x</b>".to_string(),
        global_search_props: gs_props(),
    });
    let b = page(PageProps {
        title: "T".to_string(),
        css_src: String::new(),
        custom_css: String::new(),
        body: "<b>x</b>".to_string(),
        global_search_props: gs_props(),
    });
    assert_eq!(a, b);
}

#[test]
fn open_search_bar_carries_its_input() {
    let mut props = gs_props();
    props.state = NavbarState::Open { search_input: "hello".to_string() };
    let html = pastureen::refresh_ui::global_search(props);
    assert!(html.contains("x-data=\"{ isOpen: true, searchInput: 'hello' }\""));
    let closed = pastureen::refresh_ui::global_search(gs_props());
    assert!(closed.contains("x-data=\"{ isOpen: false, searchInput: '' }\""));
}
