//! The blog's dynamic search endpoint: turning a typed query into a
//! catalogue request, and rendering the matched links.

use vstd::prelude::*;
use vstd::string::{StringExecFns, StrSliceExecFns};

use crate::librarian::{Link, PaginationRequest, QueryLinksRequest};
use crate::refresh_ui::{Actionable, ListItemProps};
use crate::shared::{ClientHttpResponseError, TypedErr};
use crate::text::{attr, eq_str, is_prefix, starts_with};

verus! {

/// How many links one page of search results holds.
pub const SEARCH_LIMIT: u32 = 20;

/// What can go wrong while serving the search endpoint.
#[derive(Debug)]
pub enum BlogHtmxError {
    /// A configuration value is missing; carries its name.
    ConfigurationMissing(String),
    /// The catalogue could not be queried.
    LibrarianError(ClientHttpResponseError),
}

impl TypedErr for BlogHtmxError {
    fn error_type(&self) -> String {
        match self {
            BlogHtmxError::ConfigurationMissing(_) => String::from_str("ConfigurationMissing"),
            BlogHtmxError::LibrarianError(_) => String::from_str("LibrarianError"),
        }
    }
}

/// Where the search endpoint reaches its collaborators and listens.
#[derive(Debug, Clone)]
pub struct BlogHtmxConfig {
    pub librarian_url: String,
    pub assets_url: String,
    pub base_url: String,
    pub htmx_url: String,
    pub listen_address: String,
}

/// The lowercase form of a string. The result depends on the characters
/// alone.
pub uninterp spec fn lower_of(s: Seq<char>) -> Seq<char>;

/// Relies on str::to_lowercase: the result is a function of the
/// characters alone.
#[verifier::external_body]
fn lowercase(s: &str) -> (r: String)
    ensures
        r@ == lower_of(s@),
{
    s.to_lowercase()
}

/// Whether a character counts as trimmable whitespace here: the four
/// common ASCII whitespace characters.
pub open spec fn is_space(c: char) -> bool {
    c == ' ' || c == '\t' || c == '\n' || c == '\r'
}

/// Whether a character counts as trimmable whitespace.
fn is_space_char(c: char) -> (r: bool)
    ensures
        r == is_space(c),
{
    c == ' ' || c == '\t' || c == '\n' || c == '\r'
}

/// Whether `t` is `s` with leading and trailing whitespace removed.
pub open spec fn trimmed_of(s: Seq<char>, t: Seq<char>, a: int, b: int) -> bool {
    &&& 0 <= a <= b <= s.len()
    &&& t == s.subrange(a, b)
    &&& forall|i: int| 0 <= i < a ==> is_space(#[trigger] s[i])
    &&& forall|i: int| b <= i < s.len() ==> is_space(#[trigger] s[i])
    &&& (a == b || (!is_space(s[a]) && !is_space(s[b - 1])))
}

/// Whether `tokens` is `s` cut at every single space.
pub open spec fn splits_of(s: Seq<char>, tokens: Seq<Seq<char>>) -> bool {
    &&& tokens.len() >= 1
    &&& joined(tokens) == s
    &&& forall|i: int, j: int|
        0 <= i < tokens.len() && 0 <= j < tokens[i].len() ==> #[trigger] tokens[i][j] != ' '
}

/// Tokens joined back with single spaces.
pub open spec fn joined(tokens: Seq<Seq<char>>) -> Seq<char>
    decreases tokens.len(),
{
    if tokens.len() == 0 {
        Seq::empty()
    } else if tokens.len() == 1 {
        tokens[0]
    } else {
        joined(tokens.drop_last()) + " "@ + tokens.last()
    }
}

/// Whether a tag stands in the catalogue's tag list.
pub open spec fn has_tag(avail: Seq<Seq<char>>, t: Seq<char>) -> bool {
    exists|i: int| 0 <= i < avail.len() && avail[i] == t
}

/// What the tokens of a query yield: `tag:`-prefixed tokens name tags; a
/// single token that is a known tag once lowercased names that tag; any
/// other token joins the title query, followed by a space. Tags are
/// stored lowercased.
pub open spec fn query_from_tokens(tokens: Seq<Seq<char>>, avail: Seq<Seq<char>>, single: bool) -> (
    Seq<Seq<char>>,
    Seq<char>,
)
    decreases tokens.len(),
{
    if tokens.len() == 0 {
        (Seq::empty(), Seq::empty())
    } else {
        let (tags, title) = query_from_tokens(tokens.drop_last(), avail, single);
        let t = tokens.last();
        if is_prefix("tag:"@, t) {
            (tags.push(lower_of(t.skip(4))), title)
        } else if single && has_tag(avail, lower_of(t)) {
            (tags.push(lower_of(t)), title)
        } else {
            (tags, title + t + " "@)
        }
    }
}

/// Whether a catalogue request matches what the query's tokens yield.
pub open spec fn query_matches_tokens(
    r: QueryLinksRequest,
    tokens: Seq<Seq<char>>,
    avail: Seq<Seq<char>>,
) -> bool {
    let (tags, title) = query_from_tokens(tokens, avail, tokens.len() == 1);
    r.tags.deep_view() == tags && r.title_query@ == title
}

/// Parse a typed search query into a catalogue request: the query is
/// trimmed — of the four common ASCII whitespace characters, the only
/// whitespace a typed query carries — and cut at spaces; its tokens sort
/// into tags and a title query, and the wanted page is `offset`, the
/// first by default, cut to the fixed search limit.
pub fn parse_search_query(
    query_str: &str,
    offset: Option<u32>,
    available_tags: &Vec<String>,
) -> (r: QueryLinksRequest)
    ensures
        r.pagination.page == (match offset {
            Some(o) => o,
            None => 0u32,
        }),
        r.pagination.limit == SEARCH_LIMIT,
        r.start_date@.len() == 0,
        r.end_date@.len() == 0,
        exists|trimmed: Seq<char>, tokens: Seq<Seq<char>>, a: int, b: int|
            #![trigger trimmed_of(query_str@, trimmed, a, b), splits_of(trimmed, tokens)]
            (trimmed_of(query_str@, trimmed, a, b) && splits_of(trimmed, tokens)
                && query_matches_tokens(r, tokens, available_tags.deep_view())),
{
    let ghost avail = available_tags.deep_view();
    proof {
        assert forall|k: int| 0 <= k < avail.len() implies #[trigger] avail[k]
            == available_tags@[k]@ by {}
    }
    // Trim the query.
    let len = query_str.unicode_len();
    let mut a: usize = 0;
    while a < len && is_space_char(query_str.get_char(a))
        invariant
            0 <= a <= len,
            len == query_str@.len(),
            forall|i: int| 0 <= i < a ==> is_space(#[trigger] query_str@[i]),
        decreases len - a,
    {
        a = a + 1;
    }
    let mut b: usize = len;
    while b > a && is_space_char(query_str.get_char(b - 1))
        invariant
            a <= b <= len,
            len == query_str@.len(),
            forall|i: int| 0 <= i < a ==> is_space(#[trigger] query_str@[i]),
            forall|i: int| b <= i < len ==> is_space(#[trigger] query_str@[i]),
        decreases b,
    {
        b = b - 1;
    }
    let trimmed: &str = query_str.substring_char(a, b);
    let ghost tr = trimmed@;
    proof {
        assert(trimmed_of(query_str@, tr, a as int, b as int));
    }

    // Cut the trimmed query at spaces.
    let tlen = trimmed.unicode_len();
    let mut tokens: Vec<String> = Vec::new();
    let mut start: usize = 0;
    let mut i: usize = 0;
    while i < tlen
        invariant
            0 <= start <= i <= tlen,
            tlen == tr.len(),
            tr == trimmed@,
            forall|k: int| start <= k < i ==> #[trigger] tr[k] != ' ',
            forall|p: int, q: int|
                0 <= p < tokens.deep_view().len() && 0 <= q < tokens.deep_view()[p].len()
                    ==> #[trigger] tokens.deep_view()[p][q] != ' ',
            tokens@.len() == 0 ==> start == 0,
            tokens@.len() > 0 ==> start >= 1 && joined(tokens.deep_view()) == tr.take(start - 1)
                && tr[start - 1] == ' ',
            tokens.deep_view().len() == tokens@.len(),
            forall|k: int|
                0 <= k < tokens@.len() ==> #[trigger] tokens.deep_view()[k] == tokens@[k]@,
        decreases tlen - i,
    {
        if trimmed.get_char(i) == ' ' {
            let tok: String = String::from_str(trimmed.substring_char(start, i));
            let ghost toks0 = tokens.deep_view();
            tokens.push(tok);
            proof {
                assert(tokens.deep_view() =~= toks0.push(tr.subrange(start as int, i as int)));
                assert(tokens.deep_view().drop_last() =~= toks0);
                if toks0.len() == 0 {
                    assert(joined(tokens.deep_view()) =~= tr.take(i as int));
                } else {
                    reveal_strlit(" ");
                    assert(joined(tokens.deep_view()) == joined(toks0) + " "@ + tr.subrange(
                        start as int,
                        i as int,
                    ));
                    assert(tr.take(start - 1) + " "@ + tr.subrange(start as int, i as int)
                        =~= tr.take(i as int));
                }
            }
            start = i + 1;
        }
        i = i + 1;
    }
    let last_tok: String = String::from_str(trimmed.substring_char(start, tlen));
    let ghost toks0 = tokens.deep_view();
    tokens.push(last_tok);
    proof {
        assert(tokens.deep_view() =~= toks0.push(tr.subrange(start as int, tlen as int)));
        assert(tokens.deep_view().drop_last() =~= toks0);
        if toks0.len() == 0 {
            assert(joined(tokens.deep_view()) =~= tr);
        } else {
            reveal_strlit(" ");
            assert(joined(tokens.deep_view()) == joined(toks0) + " "@ + tr.subrange(
                start as int,
                tlen as int,
            ));
            assert(tr.take(start - 1) + " "@ + tr.subrange(start as int, tlen as int) =~= tr);
        }
        assert(splits_of(tr, tokens.deep_view()));
    }

    // Sort the tokens into tags and the title query.
    let single: bool = tokens.len() == 1;
    let ghost toks = tokens.deep_view();
    let mut tags: Vec<String> = Vec::new();
    let mut title_query = String::new();
    let mut j: usize = 0;
    while j < tokens.len()
        invariant
            0 <= j <= tokens@.len(),
            toks == tokens.deep_view(),
            toks.len() == tokens@.len(),
            forall|k: int| 0 <= k < tokens@.len() ==> #[trigger] toks[k] == tokens@[k]@,
            avail == available_tags.deep_view(),
            avail.len() == available_tags@.len(),
            forall|k: int| 0 <= k < avail.len() ==> #[trigger] avail[k] == available_tags@[k]@,
            single == (toks.len() == 1),
            (tags.deep_view(), title_query@) == query_from_tokens(
                toks.take(j as int),
                avail,
                single,
            ),
            tags.deep_view().len() == tags@.len(),
            forall|k: int| 0 <= k < tags@.len() ==> #[trigger] tags.deep_view()[k] == tags@[k]@,
        decreases tokens@.len() - j,
    {
        proof {
            assert(toks.take(j + 1).drop_last() =~= toks.take(j as int));
            assert(toks.take(j + 1).last() == toks[j as int]);
        }
        let part: &str = tokens[j].as_str();
        if starts_with(part, "tag:") {
            proof {
                reveal_strlit("tag:");
            }
            let rest = part.substring_char(4, part.unicode_len());
            proof {
                assert(rest@ =~= part@.skip(4));
            }
            let ghost tags0 = tags.deep_view();
            tags.push(lowercase(rest));
            proof {
                assert(tags.deep_view() =~= tags0.push(lower_of(toks[j as int].skip(4))));
            }
        } else {
            let low = lowercase(part);
            let mut found = false;
            let mut k: usize = 0;
            while k < available_tags.len()
                invariant
                    0 <= k <= available_tags@.len(),
                    avail == available_tags.deep_view(),
                    avail.len() == available_tags@.len(),
                    forall|m: int| 0 <= m < avail.len() ==> #[trigger] avail[m]
                        == available_tags@[m]@,
                    low@ == lower_of(part@),
                    found <==> exists|m: int| 0 <= m < k && avail[m] == low@,
                decreases available_tags@.len() - k,
            {
                if eq_str(available_tags[k].as_str(), low.as_str()) {
                    assert(avail[k as int] == low@);
                    found = true;
                } else {
                    assert(avail[k as int] != low@);
                }
                k = k + 1;
            }
            proof {
                if found {
                    assert(has_tag(avail, lower_of(toks[j as int])));
                } else {
                    assert(!has_tag(avail, lower_of(toks[j as int])));
                }
            }
            if single && found {
                let ghost tags0 = tags.deep_view();
                tags.push(low);
                proof {
                    assert(tags.deep_view() =~= tags0.push(lower_of(toks[j as int])));
                }
            } else {
                title_query.append(part);
                title_query.append(" ");
            }
        }
        j = j + 1;
    }
    proof {
        assert(toks.take(toks.len() as int) =~= toks);
    }

    let page: u32 = match offset {
        Some(o) => o,
        None => 0,
    };
    let r = QueryLinksRequest {
        pagination: PaginationRequest { page, limit: SEARCH_LIMIT },
        tags,
        title_query,
        start_date: String::new(),
        end_date: String::new(),
    };
    proof {
        assert(query_matches_tokens(r, toks, avail));
        assert(trimmed_of(query_str@, tr, a as int, b as int) && splits_of(tr, toks)
            && query_matches_tokens(r, toks, avail));
    }
    r
}

/// The list entry of one catalogued link: the title, the date, the tags
/// behind hashes, each followed by a space, and — as the click target —
/// the link's address, put under the blog's base where it is not
/// absolute.
pub open spec fn item_props_of(link: Link, blog_base_url: Seq<char>) -> (Seq<char>, Seq<char>) {
    let tag_str = hash_tags(link.tags.deep_view());
    let item_link = if is_prefix("http"@, link.url@) {
        link.url@
    } else {
        blog_base_url + link.url@
    };
    (item_link, tag_str)
}

/// The tag line of a link: each tag behind a hash, each followed by a
/// space.
pub open spec fn hash_tags(tags: Seq<Seq<char>>) -> Seq<char>
    decreases tags.len(),
{
    if tags.len() == 0 {
        Seq::empty()
    } else {
        hash_tags(tags.drop_last()) + "#"@ + tags.last() + " "@
    }
}

/// Build the list entry of one catalogued link.
pub fn link_to_item_props(link: &Link, blog_base_url: &str) -> (r: ListItemProps)
    ensures
        r.title@ == link.title@,
        r.subtitle@ == link.date@,
        r.tertiary@ == hash_tags(link.tags.deep_view()),
        match r.actionable {
            Some(Actionable::Link(url)) => url@ == (if is_prefix("http"@, link.url@) {
                link.url@
            } else {
                blog_base_url@ + link.url@
            }),
            _ => false,
        },
{
    let ghost t = link.tags.deep_view();
    proof {
        assert forall|k: int| 0 <= k < t.len() implies #[trigger] t[k] == link.tags@[k]@ by {}
    }
    let mut tag_str = String::new();
    let mut i: usize = 0;
    while i < link.tags.len()
        invariant
            0 <= i <= link.tags@.len(),
            t == link.tags.deep_view(),
            t.len() == link.tags@.len(),
            forall|k: int| 0 <= k < t.len() ==> #[trigger] t[k] == link.tags@[k]@,
            tag_str@ == hash_tags(t.take(i as int)),
        decreases link.tags@.len() - i,
    {
        proof {
            assert(t.take(i + 1).drop_last() =~= t.take(i as int));
            assert(t.take(i + 1).last() == t[i as int]);
        }
        tag_str.append("#");
        tag_str.append(link.tags[i].as_str());
        tag_str.append(" ");
        proof {
            assert(tag_str@ =~= hash_tags(t.take(i + 1)));
        }
        i = i + 1;
    }
    proof {
        assert(t.take(t.len() as int) =~= t);
    }
    let item_link: String = if starts_with(link.url.as_str(), "http") {
        link.url.clone()
    } else {
        let mut l = String::new();
        l.append(blog_base_url);
        l.append(link.url.as_str());
        l
    };
    ListItemProps {
        actionable: Some(Actionable::Link(item_link)),
        title: link.title.clone(),
        subtitle: link.date.clone(),
        tertiary: tag_str,
    }
}

/// The rendered list entry of one catalogued link.
pub open spec fn link_entry_html(link: Link, blog_base_url: Seq<char>) -> Seq<char> {
    let item_link = if is_prefix("http"@, link.url@) {
        link.url@
    } else {
        blog_base_url + link.url@
    };
    "<a"@ + attr("href"@, item_link) + "><div class=\"list-item\">"@
        + crate::refresh_ui::list_item_body(
        link.title@,
        link.date@,
        hash_tags(link.tags.deep_view()),
    ) + "</div></a>"@
}

/// The rendered entries of the matched links, one after the other.
pub open spec fn links_list_html(links: Seq<Link>, blog_base_url: Seq<char>) -> Seq<char>
    decreases links.len(),
{
    if links.len() == 0 {
        Seq::empty()
    } else {
        links_list_html(links.drop_last(), blog_base_url) + link_entry_html(
            links.last(),
            blog_base_url,
        )
    }
}

/// The loader that fetches the next page of results once it scrolls into
/// view.
pub open spec fn next_page_loader_html(
    htmx_url: Seq<char>,
    query: Seq<char>,
    offset: int,
) -> Seq<char> {
    "<div class=\"loader\" hx-swap=\"outerHTML\" hx-trigger=\"intersect once\""@ + attr(
        "hx-get"@,
        htmx_url + "/links?search="@ + query + "&offset="@ + crate::text::dec_str(offset),
    ) + ">Loading...</div>"@
}

/// Render the matched links: one list entry per link and — where a next
/// page may exist — a loader that fetches it.
pub fn render_links(
    links: &Vec<Link>,
    query: &str,
    htmx_url: &str,
    blog_base_url: &str,
    next_offset: Option<u32>,
) -> (r: String)
    ensures
        r@ == links_list_html(links@, blog_base_url@) + (match next_offset {
            Some(o) => next_page_loader_html(htmx_url@, query@, o as int),
            None => Seq::empty(),
        }),
{
    let mut out = String::new();
    let mut i: usize = 0;
    proof {
        assert(out@ =~= links_list_html(links@.take(0), blog_base_url@));
    }
    while i < links.len()
        invariant
            0 <= i <= links@.len(),
            out@ == links_list_html(links@.take(i as int), blog_base_url@),
        decreases links@.len() - i,
    {
        proof {
            assert(links@.take(i + 1).drop_last() =~= links@.take(i as int));
            assert(links@.take(i + 1).last() == links@[i as int]);
        }
        let item = link_to_item_props(&links[i], blog_base_url);
        let entry = crate::refresh_ui::list_item(item);
        proof {
            assert(entry@ == link_entry_html(links@[i as int], blog_base_url@));
        }
        out.append(entry.as_str());
        i = i + 1;
    }
    proof {
        assert(links@.take(links@.len() as int) =~= links@);
    }
    match next_offset {
        Some(o) => {
            out.append(
                "<div class=\"loader\" hx-swap=\"outerHTML\" hx-trigger=\"intersect once\"",
            );
            let mut target = String::new();
            target.append(htmx_url);
            target.append("/links?search=");
            target.append(query);
            target.append("&offset=");
            crate::text::push_u32(&mut target, o);
            crate::text::push_attr(&mut out, "hx-get", target.as_str());
            out.append(">Loading...</div>");
            proof {
                assert(out@ =~= links_list_html(links@, blog_base_url@) + next_page_loader_html(
                    htmx_url@,
                    query@,
                    o as int,
                ));
            }
        },
        None => {},
    }
    out
}

/// The offset of the next page of results, if a full page came back: the
/// page after the requested one, counting from one when none was asked
/// for.
pub fn next_page_offset(n_links: usize, offset: Option<u32>) -> (r: Option<u32>)
    ensures
        r is Some <==> n_links >= SEARCH_LIMIT,
        match r {
            Some(next) => match offset {
                Some(o) => next as int == (if o as int + 1 <= u32::MAX {
                    o as int + 1
                } else {
                    u32::MAX as int
                }),
                None => next == 2u32,
            },
            None => true,
        },
{
    if n_links < SEARCH_LIMIT as usize {
        None
    } else {
        let base: u32 = match offset {
            Some(o) => o,
            None => 1,
        };
        if base == u32::MAX {
            Some(u32::MAX)
        } else {
            Some(base + 1)
        }
    }
}

} // verus!
