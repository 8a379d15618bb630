//! The mathematical model of the site graph and of what a crawl does to it.

use crate::fetch::{decodable, FetchedPageView, ResponseHeadView};
use crate::identity::identity;
use crate::resolver::resolve_spec;
use crate::tokenizer::{markup_tokens, stream_links, LinkKind};
use vstd::prelude::*;
use vstd::utf8::decode_utf8;

verus! {

/// A registered crawl root.
pub struct HostView {
    pub name: Seq<char>,
    pub last_status: u16,
    pub canonical_url: Seq<char>,
}

/// A page: a fetched document, or a stub for a link that was only seen.
pub struct PageView {
    pub url: Seq<char>,
    pub status: Option<u16>,
    pub references: Seq<u64>,
    pub resources: Seq<u64>,
    pub children: Seq<u64>,
}

/// An embedded resource.
pub struct ResourceView {
    pub url: Seq<char>,
    pub resource_type: Seq<char>,
}

/// The whole graph: hosts in order of registration, pages and resources
/// by identity.
pub struct SiteGraph {
    pub hosts: Seq<HostView>,
    pub pages: Map<u64, PageView>,
    pub resources: Map<u64, ResourceView>,
}

/// How an attempt to crawl one root URL ended.
#[derive(Clone, Copy, Debug, PartialEq, Eq, Structural)]
pub enum InsertOutcome {
    /// The identity of the URL is already a page of the graph.
    AlreadyVisited,
    /// The path could not be resolved against the host.
    ResolutionFailed,
    /// The transport failed.
    FetchFailed,
    /// The body is not text that can be tokenized.
    DecodeFailed,
    /// The page was fetched and stored under this identity.
    Extracted(u64),
}

/// The graph with nothing in it.
pub open spec fn empty_graph() -> SiteGraph {
    SiteGraph { hosts: Seq::empty(), pages: Map::empty(), resources: Map::empty() }
}

/// The page that stands for a URL that was seen but not fetched.
pub open spec fn stub(url: Seq<char>) -> PageView {
    PageView {
        url,
        status: None,
        references: Seq::empty(),
        resources: Seq::empty(),
        children: Seq::empty(),
    }
}

/// The resource recorded for a URL; its type is left empty.
pub open spec fn plain_resource(url: Seq<char>) -> ResourceView {
    ResourceView { url, resource_type: Seq::empty() }
}

/// The graph with one more host at the end of its list.
pub open spec fn with_host(g: SiteGraph, name: Seq<char>, head: ResponseHeadView) -> SiteGraph {
    SiteGraph {
        hosts: g.hosts.push(
            HostView { name, last_status: head.status, canonical_url: head.final_url },
        ),
        pages: g.pages,
        resources: g.resources,
    }
}

/// The names of the hosts, in order of registration.
pub open spec fn host_names(g: SiteGraph) -> Seq<Seq<char>> {
    g.hosts.map_values(|h: HostView| h.name)
}

/// `urls` lists the URL of every resource once, in the order of `keys`.
pub open spec fn lists_resources(
    resources: Map<u64, ResourceView>,
    keys: Seq<u64>,
    urls: Seq<Seq<char>>,
) -> bool {
    &&& keys.no_duplicates()
    &&& keys.to_set() == resources.dom()
    &&& urls.len() == keys.len()
    &&& forall|i: int| 0 <= i < keys.len() ==> urls[i] == resources[#[trigger] keys[i]].url
}

/// No page names an identity that the graph does not hold.
pub open spec fn linked(g: SiteGraph) -> bool {
    &&& forall|k: u64, i: int|
        g.pages.contains_key(k) && 0 <= i < g.pages[k].references.len()
            ==> g.pages.contains_key(#[trigger] g.pages[k].references[i])
    &&& forall|k: u64, i: int|
        g.pages.contains_key(k) && 0 <= i < g.pages[k].resources.len()
            ==> g.resources.contains_key(#[trigger] g.pages[k].resources[i])
}

/// A raw link resolved against `base`, with its identity; `None` where it
/// does not resolve.
pub open spec fn validated(base: Seq<char>, raw: Seq<char>) -> Option<(Seq<char>, u64)> {
    match resolve_spec(base, raw) {
        Ok(url) => Some((url, identity(base, url))),
        Err(_) => None,
    }
}

/// The raw links that resolve against `base`, in order, each with its
/// identity. Links that do not resolve are left out.
pub open spec fn discovered(base: Seq<char>, raws: Seq<Seq<char>>) -> Seq<(Seq<char>, u64)> {
    raws.filter_map(|raw: Seq<char>| validated(base, raw))
}

/// The identities of a sequence of discoveries.
pub open spec fn ids(found: Seq<(Seq<char>, u64)>) -> Seq<u64> {
    found.map_values(|f: (Seq<char>, u64)| f.1)
}

/// The table after taking in discoveries one by one: an identity that the
/// table already holds keeps its entry, a new one gets `make` of its URL.
pub open spec fn adopt<V>(
    known: Map<u64, V>,
    found: Seq<(Seq<char>, u64)>,
    make: spec_fn(Seq<char>) -> V,
) -> Map<u64, V>
    decreases found.len(),
{
    if found.len() == 0 {
        known
    } else {
        let before = adopt(known, found.drop_last(), make);
        let (url, id) = found.last();
        if before.contains_key(id) {
            before
        } else {
            before.insert(id, make(url))
        }
    }
}

/// The graph after a fetched page is stored under `id`: its links are
/// adopted as stubs and resources, and the page itself, with the
/// identities of all of them, replaces whatever stood under `id`.
pub open spec fn recorded(
    g: SiteGraph,
    id: u64,
    status: u16,
    final_url: Seq<char>,
    pages: Seq<(Seq<char>, u64)>,
    resources: Seq<(Seq<char>, u64)>,
) -> SiteGraph {
    SiteGraph {
        hosts: g.hosts,
        pages: adopt(g.pages, pages, |url: Seq<char>| stub(url)).insert(
            id,
            PageView {
                url: final_url,
                status: Some(status),
                references: ids(pages),
                resources: ids(resources),
                children: Seq::empty(),
            },
        ),
        resources: adopt(g.resources, resources, |url: Seq<char>| plain_resource(url)),
    }
}

/// How crawling `path` from `host` ends, given the graph and what the
/// fetch returned (`None` for a transport failure).
pub open spec fn crawl_outcome(
    g: SiteGraph,
    host: Seq<char>,
    path: Seq<char>,
    fetched: Option<FetchedPageView>,
) -> InsertOutcome {
    match validated(host, path) {
        None => InsertOutcome::ResolutionFailed,
        Some((_, id)) => if g.pages.contains_key(id) {
            InsertOutcome::AlreadyVisited
        } else {
            match fetched {
                None => InsertOutcome::FetchFailed,
                Some(page) => if decodable(page.body) {
                    InsertOutcome::Extracted(id)
                } else {
                    InsertOutcome::DecodeFailed
                },
            }
        },
    }
}

/// The raw links of one kind in the markup of a body.
pub open spec fn body_links(body: Seq<u8>, kind: LinkKind) -> Seq<Seq<char>> {
    stream_links(markup_tokens(decode_utf8(body)), kind)
}

/// The graph after crawling `path` from `host`: unchanged unless the page
/// was extracted.
pub open spec fn crawled(
    g: SiteGraph,
    host: Seq<char>,
    path: Seq<char>,
    fetched: Option<FetchedPageView>,
) -> SiteGraph {
    match (crawl_outcome(g, host, path, fetched), fetched) {
        (InsertOutcome::Extracted(id), Some(page)) => recorded(
            g,
            id,
            page.status,
            page.final_url,
            discovered(host, body_links(page.body, LinkKind::Reference)),
            discovered(host, body_links(page.body, LinkKind::Resource)),
        ),
        _ => g,
    }
}

/// What `adopt` keeps and what it adds: entries that were known stay as
/// they were, every discovered identity is held afterwards, and an entry
/// that is new was made from the URL of a discovery with that identity.
pub proof fn lemma_adopt<V>(
    known: Map<u64, V>,
    found: Seq<(Seq<char>, u64)>,
    make: spec_fn(Seq<char>) -> V,
)
    ensures
        forall|k: u64| #[trigger]
            known.contains_key(k) ==> adopt(known, found, make).contains_key(k) && adopt(
                known,
                found,
                make,
            )[k] == known[k],
        forall|i: int|
            0 <= i < found.len() ==> adopt(known, found, make).contains_key(#[trigger] found[i].1),
        forall|k: u64| #[trigger]
            adopt(known, found, make).contains_key(k) && !known.contains_key(k) ==> exists|i: int|
                0 <= i < found.len() && (#[trigger] found[i]).1 == k && adopt(known, found, make)[k]
                    == make(found[i].0),
    decreases found.len(),
{
    if found.len() > 0 {
        let earlier = found.drop_last();
        lemma_adopt(known, earlier, make);
        let before = adopt(known, earlier, make);
        let after = adopt(known, found, make);
        assert forall|i: int| 0 <= i < found.len() implies after.contains_key(
            #[trigger] found[i].1,
        ) by {
            if i < found.len() - 1 {
                assert(earlier[i] == found[i]);
            }
        }
        assert forall|k: u64| #[trigger] after.contains_key(k) && !known.contains_key(k) implies exists|
            i: int,
        |
            0 <= i < found.len() && (#[trigger] found[i]).1 == k && after[k] == make(
                found[i].0,
            ) by {
            if before.contains_key(k) {
                let i = choose|i: int|
                    0 <= i < earlier.len() && (#[trigger] earlier[i]).1 == k && before[k] == make(
                        earlier[i].0,
                    );
                assert(found[i] == earlier[i]);
            } else {
                assert(found[found.len() - 1] == found.last());
            }
        }
    }
}

/// Storing a fetched page keeps the graph free of dangling identities.
pub proof fn lemma_recorded_is_linked(
    g: SiteGraph,
    id: u64,
    status: u16,
    final_url: Seq<char>,
    pages: Seq<(Seq<char>, u64)>,
    resources: Seq<(Seq<char>, u64)>,
)
    requires
        linked(g),
    ensures
        linked(recorded(g, id, status, final_url, pages, resources)),
{
    let make_page = |url: Seq<char>| stub(url);
    let make_resource = |url: Seq<char>| plain_resource(url);
    lemma_adopt(g.pages, pages, make_page);
    lemma_adopt(g.resources, resources, make_resource);
    let after = recorded(g, id, status, final_url, pages, resources);
    let adopted = adopt(g.pages, pages, make_page);
    assert forall|k: u64, i: int|
        after.pages.contains_key(k) && 0 <= i < after.pages[k].references.len() implies after.pages.contains_key(
        #[trigger] after.pages[k].references[i],
    ) by {
        if k == id {
            assert(after.pages[k].references[i] == pages[i].1);
        } else if g.pages.contains_key(k) {
            assert(g.pages.contains_key(g.pages[k].references[i]));
        } else {
            assert(adopted.contains_key(k));
        }
    }
    assert forall|k: u64, i: int|
        after.pages.contains_key(k) && 0 <= i < after.pages[k].resources.len() implies after.resources.contains_key(
        #[trigger] after.pages[k].resources[i],
    ) by {
        if k == id {
            assert(after.pages[k].resources[i] == resources[i].1);
        } else if g.pages.contains_key(k) {
            assert(g.resources.contains_key(g.pages[k].resources[i]));
        } else {
            assert(adopted.contains_key(k));
        }
    }
}

/// Crawling keeps the graph free of dangling identities, however the
/// crawl ends.
pub proof fn lemma_crawled_is_linked(
    g: SiteGraph,
    host: Seq<char>,
    path: Seq<char>,
    fetched: Option<FetchedPageView>,
)
    requires
        linked(g),
    ensures
        linked(crawled(g, host, path, fetched)),
{
    match (crawl_outcome(g, host, path, fetched), fetched) {
        (InsertOutcome::Extracted(id), Some(page)) => {
            lemma_recorded_is_linked(
                g,
                id,
                page.status,
                page.final_url,
                discovered(host, body_links(page.body, LinkKind::Reference)),
                discovered(host, body_links(page.body, LinkKind::Resource)),
            );
        },
        _ => {},
    }
}

/// Once a crawl of a host and path has extracted a page, crawling the
/// same host and path again ends as already visited, whatever the fetch
/// returns, and leaves the graph as the first crawl left it.
pub proof fn lemma_second_crawl_is_rejected(
    g: SiteGraph,
    host: Seq<char>,
    path: Seq<char>,
    first: Option<FetchedPageView>,
    second: Option<FetchedPageView>,
)
    requires
        crawl_outcome(g, host, path, first) is Extracted,
    ensures
        crawl_outcome(crawled(g, host, path, first), host, path, second)
            == InsertOutcome::AlreadyVisited,
        crawled(crawled(g, host, path, first), host, path, second) == crawled(
            g,
            host,
            path,
            first,
        ),
{
}

/// The outcome of a crawl does not depend on the status code of the
/// response, and an extracted page is stored under the returned identity
/// with that status code and the final URL of the response.
pub proof fn lemma_status_is_recorded(
    g: SiteGraph,
    host: Seq<char>,
    path: Seq<char>,
    page: FetchedPageView,
    other_status: u16,
)
    ensures
        crawl_outcome(g, host, path, Some(page)) == crawl_outcome(
            g,
            host,
            path,
            Some(FetchedPageView { status: other_status, ..page }),
        ),
        crawl_outcome(g, host, path, Some(page)) matches InsertOutcome::Extracted(id) ==> {
            let after = crawled(g, host, path, Some(page));
            &&& after.pages.contains_key(id)
            &&& after.pages[id].status == Some(page.status)
            &&& after.pages[id].url == page.final_url
        },
{
}

/// A link that does not resolve adds nothing to the discoveries; one that
/// resolves is appended to them.
pub proof fn lemma_discovered_push(base: Seq<char>, raws: Seq<Seq<char>>, raw: Seq<char>)
    ensures
        discovered(base, raws.push(raw)) == match validated(base, raw) {
            Some(found) => discovered(base, raws).push(found),
            None => discovered(base, raws),
        },
{
    assert(raws.push(raw).drop_last() =~= raws);
    assert(discovered(base, raws) + seq![validated(base, raw)->0] =~= discovered(base, raws).push(
        validated(base, raw)->0,
    ));
}

} // verus!
