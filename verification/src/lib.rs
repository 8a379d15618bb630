//! An in-memory map of a web site's link structure: hosts, the pages that
//! were fetched or seen, and the resources they embed, stored by identity.
//!
//! The map does no I/O. A caller asks it what to fetch
//! ([`WebMap::crawl_target`], [`WebMap::host_target`]), fetches, and hands
//! the answer back ([`WebMap::add_path`], [`WebMap::add_host`]). URLs are
//! resolved in [`resolver`], identities computed in [`identity`], markup
//! tokenized and its links classified in [`tokenizer`]; [`graph`] holds the
//! model that the contracts speak of, and what is proved of it.

pub mod fetch;
pub mod graph;
pub mod identity;
pub mod resolver;
pub mod tokenizer;

use crate::fetch::{decode_body, FetchedPage, FetchedPageView, ResponseHead, TransportError};
pub use crate::graph::InsertOutcome;
use crate::graph::{
    adopt, crawl_outcome, crawled, discovered, empty_graph, host_names, lemma_recorded_is_linked,
    linked, lists_resources, plain_resource, recorded, stub, validated, with_host, HostView,
    PageView, ResourceView, SiteGraph,
};
use crate::identity::identity;
use crate::resolver::{parse_url, resolve, text_view, url_parse};
use crate::tokenizer::extract;
use std::collections::HashMap;
use vstd::prelude::*;
use vstd::std_specs::iter::IteratorSpec;

verus! {

/// A registered crawl root.
#[derive(Clone, Debug, PartialEq, Eq)]
pub struct Host {
    pub name: String,
    pub last_status: u16,
    pub canonical_url: String,
}

impl DeepView for Host {
    type V = HostView;

    open spec fn deep_view(&self) -> HostView {
        HostView {
            name: self.name@,
            last_status: self.last_status,
            canonical_url: self.canonical_url@,
        }
    }
}

/// A page of the map: a fetched document with the identities of its links,
/// or a stub for a URL that was only seen.
#[derive(Clone, Debug, PartialEq, Eq, Hash)]
pub struct WebReference {
    url: String,
    status: Option<u16>,
    references: Vec<u64>,
    resources: Vec<u64>,
    children: Vec<u64>,
}

impl View for WebReference {
    type V = PageView;

    closed spec fn view(&self) -> PageView {
        PageView {
            url: self.url@,
            status: self.status,
            references: self.references@,
            resources: self.resources@,
            children: self.children@,
        }
    }
}

impl WebReference {
    /// The stub for a URL: no status, no links.
    pub fn new(url: String) -> (page: WebReference)
        ensures
            page@ == stub(url@),
    {
        WebReference {
            url,
            references: Vec::new(),
            resources: Vec::new(),
            status: None,
            children: Vec::new(),
        }
    }

    /// The URL of the page.
    pub fn url(&self) -> (url: &str)
        ensures
            url@ == self@.url,
    {
        self.url.as_str()
    }

    /// The status code with which the page was fetched; `None` for a stub.
    pub fn status(&self) -> (status: Option<u16>)
        ensures
            status == self@.status,
    {
        self.status
    }

    /// The identities of the pages that this page links to, in document
    /// order.
    pub fn references(&self) -> (ids: &Vec<u64>)
        ensures
            ids@ == self@.references,
    {
        &self.references
    }

    /// The identities of the resources that this page embeds, in document
    /// order.
    pub fn resources(&self) -> (ids: &Vec<u64>)
        ensures
            ids@ == self@.resources,
    {
        &self.resources
    }

    /// The identities of the children of this page.
    pub fn children(&self) -> (ids: &Vec<u64>)
        ensures
            ids@ == self@.children,
    {
        &self.children
    }
}

/// An embedded resource of the map.
#[derive(Clone, Debug, PartialEq, Eq, Hash)]
pub struct WebResource {
    url: String,
    resource_type: String,
}

impl View for WebResource {
    type V = ResourceView;

    closed spec fn view(&self) -> ResourceView {
        ResourceView { url: self.url@, resource_type: self.resource_type@ }
    }
}

impl WebResource {
    /// The resource recorded for a URL, with its type left empty.
    pub fn new(url: String) -> (resource: WebResource)
        ensures
            resource@ == plain_resource(url@),
    {
        WebResource { url, resource_type: String::new() }
    }

    /// The URL of the resource.
    pub fn url(&self) -> (url: &str)
        ensures
            url@ == self@.url,
    {
        self.url.as_str()
    }

    /// The type of the resource; empty where it is not known.
    pub fn resource_type(&self) -> (kind: &str)
        ensures
            kind@ == self@.resource_type,
    {
        self.resource_type.as_str()
    }
}

/// The pages of a table, each by its view.
spec fn page_views(table: Map<u64, WebReference>) -> Map<u64, PageView> {
    table.map_values(|page: WebReference| page@)
}

/// The resources of a table, each by its view.
spec fn resource_views(table: Map<u64, WebResource>) -> Map<u64, ResourceView> {
    table.map_values(|resource: WebResource| resource@)
}

/// Takes discovered pages into a table: each identity that it does not
/// hold yet gets a stub.
fn adopt_pages(table: &mut HashMap<u64, WebReference>, found: &Vec<(String, u64)>)
    ensures
        page_views(final(table)@) == adopt(
            page_views(old(table)@),
            found.deep_view(),
            |url: Seq<char>| stub(url),
        ),
{
    let ghost all = found.deep_view();
    let ghost make = |url: Seq<char>| stub(url);
    for i in 0..found.len()
        invariant
            all == found.deep_view(),
            make == (|url: Seq<char>| stub(url)),
            page_views(table@) == adopt(page_views(old(table)@), all.take(i as int), make),
    {
        proof {
            assert(all.take(i + 1).drop_last() =~= all.take(i as int));
            assert(all[i as int] == found[i as int].deep_view());
        }
        let id = found[i].1;
        if !table.contains_key(&id) {
            let ghost before = table@;
            table.insert(id, WebReference::new(found[i].0.clone()));
            assert(page_views(table@) =~= page_views(before).insert(id, stub(all[i as int].0)));
        }
    }
    assert(all.take(found.len() as int) == all);
}

/// Takes discovered resources into a table: each identity that it does
/// not hold yet gets a resource of unknown type.
fn adopt_resources(table: &mut HashMap<u64, WebResource>, found: &Vec<(String, u64)>)
    ensures
        resource_views(final(table)@) == adopt(
            resource_views(old(table)@),
            found.deep_view(),
            |url: Seq<char>| plain_resource(url),
        ),
{
    let ghost all = found.deep_view();
    let ghost make = |url: Seq<char>| plain_resource(url);
    for i in 0..found.len()
        invariant
            all == found.deep_view(),
            make == (|url: Seq<char>| plain_resource(url)),
            resource_views(table@) == adopt(resource_views(old(table)@), all.take(i as int), make),
    {
        proof {
            assert(all.take(i + 1).drop_last() =~= all.take(i as int));
            assert(all[i as int] == found[i as int].deep_view());
        }
        let id = found[i].1;
        if !table.contains_key(&id) {
            let ghost before = table@;
            table.insert(id, WebResource::new(found[i].0.clone()));
            assert(resource_views(table@) =~= resource_views(before).insert(
                id,
                plain_resource(all[i as int].0),
            ));
        }
    }
    assert(all.take(found.len() as int) == all);
}

/// The identities of discoveries, in order.
fn ids_of(found: &Vec<(String, u64)>) -> (out: Vec<u64>)
    ensures
        out@ == crate::graph::ids(found.deep_view()),
{
    let mut out: Vec<u64> = Vec::new();
    for i in 0..found.len()
        invariant
            out@ == crate::graph::ids(found.deep_view().take(i as int)),
    {
        proof {
            assert(found.deep_view().take(i + 1) =~= found.deep_view().take(i as int).push(
                found.deep_view()[i as int],
            ));
            assert(found.deep_view()[i as int] == found[i as int].deep_view());
        }
        out.push(found[i].1);
        assert(out@ =~= crate::graph::ids(found.deep_view().take(i + 1)));
    }
    assert(found.deep_view().take(found.len() as int) == found.deep_view());
    out
}

/// The view of an optional discovery.
pub open spec fn discovery_view(found: Option<(String, u64)>) -> Option<(Seq<char>, u64)> {
    match found {
        Some(f) => Some(f.deep_view()),
        None => None,
    }
}

/// What a fetch returned, as the model sees it: the page, or `None` for a
/// transport failure.
pub open spec fn fetched_view(fetched: Result<FetchedPage, TransportError>) -> Option<
    FetchedPageView,
> {
    match fetched {
        Ok(page) => Some(page@),
        Err(_) => None,
    }
}

/// Resolves each raw link against `base` and pairs it with its identity.
/// Links that do not resolve are dropped.
pub fn discover(base: &str, raws: &Vec<String>) -> (found: Vec<(String, u64)>)
    ensures
        found.deep_view() == discovered(base@, raws.deep_view()),
{
    let mut found: Vec<(String, u64)> = Vec::new();
    let ghost all = raws.deep_view();
    let ghost pick = |raw: Seq<char>| validated(base@, raw);
    for i in 0..raws.len()
        invariant
            all == raws.deep_view(),
            pick == (|raw: Seq<char>| validated(base@, raw)),
            found.deep_view() == all.take(i as int).filter_map(pick),
    {
        let ghost sofar = found.deep_view();
        proof {
            all.lemma_filter_map_take_succ(pick, i as int);
            assert(all[i as int] == raws[i as int]@);
        }
        match WebMap::validate_url_string(base, raws[i].as_str()) {
            Some(pair) => {
                found.push(pair);
                assert(found.deep_view() =~= sofar + seq![pair.deep_view()]);
            },
            None => {},
        }
    }
    assert(all.take(raws.len() as int) == all);
    found
}

/// The map of a site.
#[derive(Debug, PartialEq, Eq)]
pub struct WebMap {
    hosts: Vec<Host>,
    resources: HashMap<u64, WebResource>,
    references: HashMap<u64, WebReference>,
}

impl View for WebMap {
    type V = SiteGraph;

    closed spec fn view(&self) -> SiteGraph {
        SiteGraph {
            hosts: self.hosts.deep_view(),
            pages: page_views(self.references@),
            resources: resource_views(self.resources@),
        }
    }
}

impl Clone for WebMap {
    /// A copy with the same hosts, pages and resources.
    fn clone(&self) -> (copy: WebMap)
        ensures
            copy@ == self@,
    {
        proof {
            use_type_invariant(self);
        }
        let mut hosts: Vec<Host> = Vec::new();
        for i in 0..self.hosts.len()
            invariant
                hosts.deep_view() == self.hosts.deep_view().take(i as int),
        {
            let ghost sofar = hosts.deep_view();
            let host = &self.hosts[i];
            hosts.push(
                Host {
                    name: host.name.clone(),
                    last_status: host.last_status,
                    canonical_url: host.canonical_url.clone(),
                },
            );
            proof {
                assert(self.hosts.deep_view()[i as int] == host.deep_view());
                assert(hosts.deep_view() =~= sofar.push(host.deep_view()));
                assert(self.hosts.deep_view().take(i + 1) =~= sofar.push(host.deep_view()));
            }
        }
        assert(self.hosts.deep_view().take(self.hosts.len() as int) =~= self.hosts.deep_view());
        WebMap { hosts, references: self.references.clone(), resources: self.resources.clone() }
    }
}

impl WebMap {
    /// Every identity that a page names is held by the map.
    #[verifier::type_invariant]
    spec fn well_linked(&self) -> bool {
        linked(self@)
    }

    /// A map with nothing in it.
    pub fn new() -> (map: WebMap)
        ensures
            map@ == empty_graph(),
            linked(map@),
    {
        let map = WebMap { hosts: Vec::new(), references: HashMap::new(), resources: HashMap::new() };
        assert(map@.pages =~= Map::empty());
        assert(map@.resources =~= Map::empty());
        assert(map@.hosts =~= Seq::empty());
        map
    }

    /// Moves the two tables out of the map. Until they are put back the
    /// map holds no page and no resource, so that it is well linked at
    /// every moment.
    fn take_tables(&mut self) -> (tables: (HashMap<u64, WebReference>, HashMap<u64, WebResource>))
        ensures
            tables.0@ == old(self).references@,
            tables.1@ == old(self).resources@,
            final(self).references@ == Map::<u64, WebReference>::empty(),
            final(self).resources@ == Map::<u64, WebResource>::empty(),
            final(self).hosts == old(self).hosts,
    {
        let mut pages: HashMap<u64, WebReference> = HashMap::new();
        let mut resources: HashMap<u64, WebResource> = HashMap::new();
        proof {
            assert(page_views(pages@) =~= Map::empty());
            assert(resource_views(resources@) =~= Map::empty());
        }
        std::mem::swap(&mut self.references, &mut pages);
        std::mem::swap(&mut self.resources, &mut resources);
        (pages, resources)
    }

    /// Puts tables back into a map that holds none.
    fn put_tables(
        &mut self,
        pages: HashMap<u64, WebReference>,
        resources: HashMap<u64, WebResource>,
    )
        requires
            old(self).references@ == Map::<u64, WebReference>::empty(),
            old(self).resources@ == Map::<u64, WebResource>::empty(),
            linked(
                SiteGraph {
                    hosts: old(self)@.hosts,
                    pages: page_views(pages@),
                    resources: resource_views(resources@),
                },
            ),
        ensures
            final(self)@ == (SiteGraph {
                hosts: old(self)@.hosts,
                pages: page_views(pages@),
                resources: resource_views(resources@),
            }),
    {
        let mut pages = pages;
        let mut resources = resources;
        proof {
            assert(page_views(self.references@) =~= Map::empty());
        }
        std::mem::swap(&mut self.resources, &mut resources);
        std::mem::swap(&mut self.references, &mut pages);
    }

    /// Stores a fetched page under `id` together with what was discovered
    /// on it, unless the map already holds a page under `id`.
    pub fn record_page(
        &mut self,
        id: u64,
        head: ResponseHead,
        pages: Vec<(String, u64)>,
        resources: Vec<(String, u64)>,
    ) -> (outcome: InsertOutcome)
        ensures
            old(self)@.pages.contains_key(id) ==> outcome == InsertOutcome::AlreadyVisited
                && final(self)@ == old(self)@,
            !old(self)@.pages.contains_key(id) ==> outcome == InsertOutcome::Extracted(id)
                && final(self)@ == recorded(
                old(self)@,
                id,
                head.status,
                head.final_url@,
                pages.deep_view(),
                resources.deep_view(),
            ),
            linked(final(self)@),
    {
        proof {
            use_type_invariant(&*self);
        }
        if self.references.contains_key(&id) {
            return InsertOutcome::AlreadyVisited;
        }
        let root = WebReference {
            url: head.final_url,
            status: Some(head.status),
            resources: ids_of(&resources),
            references: ids_of(&pages),
            children: Vec::new(),
        };
        let (mut page_table, mut resource_table) = self.take_tables();
        adopt_pages(&mut page_table, &pages);
        adopt_resources(&mut resource_table, &resources);
        let ghost adopted = page_table@;
        page_table.insert(id, root);
        proof {
            assert(page_views(page_table@) =~= page_views(adopted).insert(id, root@));
            lemma_recorded_is_linked(
                old(self)@,
                id,
                head.status,
                head.final_url@,
                pages.deep_view(),
                resources.deep_view(),
            );
        }
        self.put_tables(page_table, resource_table);
        InsertOutcome::Extracted(id)
    }

    /// The identity of `url_name` as discovered from `hostname`.
    pub fn hash_host_and_url(hostname: &str, url_name: &str) -> (id: u64)
        ensures
            id == identity(hostname@, url_name@),
    {
        crate::identity::hash_host_and_url(hostname, url_name)
    }

    /// Resolves `url` against `base_name` and computes its identity.
    /// `None` where the string does not resolve.
    pub fn validate_url_string(base_name: &str, url: &str) -> (found: Option<(String, u64)>)
        ensures
            discovery_view(found) == validated(base_name@, url@),
    {
        match resolve(base_name, url) {
            Ok(final_url) => {
                let hash = WebMap::hash_host_and_url(base_name, final_url.as_str());
                Some((final_url, hash))
            },
            Err(_) => None,
        }
    }

    /// The URL to fetch in order to crawl `path` from `hostname`, or the
    /// outcome that makes a fetch pointless: the path does not resolve, or
    /// its identity is already a page of the map.
    pub fn crawl_target(&self, hostname: &str, path: &str) -> (target: Result<String, InsertOutcome>)
        ensures
            match target {
                Ok(url) => validated(hostname@, path@) matches Some((resolved, id)) && url@
                    == resolved && !self@.pages.contains_key(id),
                Err(outcome) => outcome == crawl_outcome(self@, hostname@, path@, None)
                    && outcome != InsertOutcome::FetchFailed,
            },
    {
        match WebMap::validate_url_string(hostname, path) {
            None => Err(InsertOutcome::ResolutionFailed),
            Some((url, id)) => {
                if self.references.contains_key(&id) {
                    Err(InsertOutcome::AlreadyVisited)
                } else {
                    Ok(url)
                }
            },
        }
    }

    /// Crawls `path` from `hostname` with what the fetch of
    /// [`crawl_target`](WebMap::crawl_target) returned. The page is stored
    /// with the identities of its links, whatever its status code; every
    /// other outcome leaves the map as it was.
    pub fn add_path(
        &mut self,
        hostname: &str,
        path: &str,
        fetched: Result<FetchedPage, TransportError>,
    ) -> (outcome: InsertOutcome)
        ensures
            outcome == crawl_outcome(old(self)@, hostname@, path@, fetched_view(fetched)),
            final(self)@ == crawled(old(self)@, hostname@, path@, fetched_view(fetched)),
            linked(final(self)@),
    {
        proof {
            use_type_invariant(&*self);
        }
        let id = match WebMap::validate_url_string(hostname, path) {
            None => {
                return InsertOutcome::ResolutionFailed;
            },
            Some((_, id)) => id,
        };
        if self.references.contains_key(&id) {
            return InsertOutcome::AlreadyVisited;
        }
        let page = match fetched {
            Err(_) => {
                return InsertOutcome::FetchFailed;
            },
            Ok(page) => page,
        };
        let head = ResponseHead { status: page.status, final_url: page.final_url };
        let text = match decode_body(page.body) {
            Err(_) => {
                return InsertOutcome::DecodeFailed;
            },
            Ok(text) => text,
        };
        proof {
            vstd::utf8::decode_utf8_encode_utf8(page.body@);
        }
        let links = match extract(text.as_str()) {
            None => {
                return InsertOutcome::DecodeFailed;
            },
            Some(links) => links,
        };
        let pages = discover(hostname, &links.references);
        let resources = discover(hostname, &links.resources);
        self.record_page(id, head, pages, resources)
    }

    /// The URL to probe in order to register `hostname`: its canonical
    /// form, or `None` where the name is not an absolute URL.
    pub fn host_target(hostname: &str) -> (target: Option<String>)
        ensures
            text_view(target) == match url_parse(hostname@) {
                Some((text, _)) => Some(text),
                None => None,
            },
    {
        match parse_url(hostname) {
            Some(url) => Some(url.text),
            None => None,
        }
    }

    /// Appends a host to the list if its name is a URL and the probe was
    /// answered; otherwise the map stays as it was.
    pub fn record_host(
        &mut self,
        hostname: &str,
        is_url: bool,
        probe: Result<ResponseHead, TransportError>,
    ) -> (added: bool)
        ensures
            added == (is_url && probe is Ok),
            final(self)@ == if added {
                with_host(old(self)@, hostname@, probe->Ok_0@)
            } else {
                old(self)@
            },
            linked(final(self)@),
    {
        proof {
            use_type_invariant(&*self);
        }
        if !is_url {
            return false;
        }
        match probe {
            Ok(head) => {
                let mut hosts: Vec<Host> = Vec::new();
                std::mem::swap(&mut self.hosts, &mut hosts);
                hosts.push(
                    Host {
                        name: String::from_str(hostname),
                        last_status: head.status,
                        canonical_url: head.final_url,
                    },
                );
                assert(hosts.deep_view() =~= with_host(old(self)@, hostname@, head@).hosts);
                std::mem::swap(&mut self.hosts, &mut hosts);
                true
            },
            Err(_) => false,
        }
    }

    /// Registers `hostname` as a crawl root with what probing
    /// [`host_target`](WebMap::host_target) returned. The host is added,
    /// with the status and the final URL of the answer, exactly when its
    /// name is an absolute URL and the probe was answered.
    pub fn add_host(&mut self, hostname: &str, probe: Result<ResponseHead, TransportError>) -> (added:
        bool)
        ensures
            added == (url_parse(hostname@) is Some && probe is Ok),
            final(self)@ == if added {
                with_host(old(self)@, hostname@, probe->Ok_0@)
            } else {
                old(self)@
            },
            linked(final(self)@),
    {
        let is_url = parse_url(hostname).is_some();
        self.record_host(hostname, is_url, probe)
    }

    /// The names of the registered hosts, in order of registration.
    pub fn list_hosts(&self) -> (names: Vec<String>)
        ensures
            names.deep_view() == host_names(self@),
    {
        let mut host_list: Vec<String> = Vec::new();
        for i in 0..self.hosts.len()
            invariant
                host_list.deep_view() == host_names(self@).take(i as int),
        {
            let ghost sofar = host_list.deep_view();
            host_list.push(self.hosts[i].name.clone());
            proof {
                assert(self@.hosts[i as int] == self.hosts[i as int].deep_view());
                assert(host_list.deep_view() =~= sofar.push(self@.hosts[i as int].name));
                assert(host_names(self@).take(i + 1) =~= host_names(self@).take(i as int).push(
                    self@.hosts[i as int].name,
                ));
            }
        }
        assert(host_names(self@).take(self.hosts.len() as int) =~= host_names(self@));
        host_list
    }

    /// The URL of every resource of the map, each once, in no particular
    /// order.
    pub fn list_resources(&self) -> (urls: Vec<String>)
        ensures
            exists|keys: Seq<u64>| lists_resources(self@.resources, keys, urls.deep_view()),
    {
        let mut res_list: Vec<String> = Vec::new();
        let ghost mut keys: Seq<u64> = Seq::empty();
        for entry in it: self.resources.iter()
            invariant
                keys.len() == it.index(),
                res_list.len() == it.index(),
                forall|j: int|
                    0 <= j < keys.len() ==> keys[j] == *it.seq()[j].0 && res_list[j]@
                        == self.resources@[#[trigger] keys[j]]@.url,
        {
            let (key, resource) = entry;
            res_list.push(resource.url.clone());
            proof {
                keys = keys.push(*key);
            }
        }
        proof {
            let table = self.resources@;
            let all = vstd::std_specs::hash::spec_hash_map_iter(&self.resources).remaining();
            vstd::std_specs::hash::axiom_spec_hash_map_iter(&self.resources);
            assert(keys.len() == all.len());
            assert(forall|j: int| 0 <= j < keys.len() ==> keys[j] == *all[j].0);
            assert(keys.no_duplicates());
            assert forall|k: u64| table.contains_key(k) implies keys.contains(k) by {
                let j = choose|j: int| 0 <= j < all.len() && all[j] == (&k, &table[k]);
                assert(keys[j] == k);
            }
            assert forall|k: u64| keys.contains(k) implies table.contains_key(k) by {
                let j = choose|j: int| 0 <= j < keys.len() && keys[j] == k;
                assert(table.contains_key(*all[j].0));
            }
            assert(keys.to_set() =~= table.dom());
            assert(self@.resources.dom() =~= table.dom());
            assert forall|j: int| 0 <= j < keys.len() implies res_list.deep_view()[j]
                == self@.resources[#[trigger] keys[j]].url by {
                assert(table.contains_key(*all[j].0));
            }
            assert(lists_resources(self@.resources, keys, res_list.deep_view()));
        }
        res_list
    }

    /// The page stored under `id`, if there is one.
    pub fn page(&self, id: u64) -> (page: Option<&WebReference>)
        ensures
            match page {
                Some(p) => self@.pages.contains_key(id) && p@ == self@.pages[id],
                None => !self@.pages.contains_key(id),
            },
    {
        self.references.get(&id)
    }

    /// The resource stored under `id`, if there is one.
    pub fn resource(&self, id: u64) -> (resource: Option<&WebResource>)
        ensures
            match resource {
                Some(r) => self@.resources.contains_key(id) && r@ == self@.resources[id],
                None => !self@.resources.contains_key(id),
            },
    {
        self.resources.get(&id)
    }

    /// The number of pages, stubs included.
    pub fn page_count(&self) -> (n: usize)
        ensures
            n == self@.pages.len(),
    {
        assert(self@.pages.dom() =~= self.references@.dom());
        self.references.len()
    }

    /// The number of resources.
    pub fn resource_count(&self) -> (n: usize)
        ensures
            n == self@.resources.len(),
    {
        assert(self@.resources.dom() =~= self.resources@.dom());
        self.resources.len()
    }

    /// The registered hosts, in order of registration.
    pub fn hosts(&self) -> (hosts: &Vec<Host>)
        ensures
            hosts.deep_view() == self@.hosts,
    {
        &self.hosts
    }
}

} // verus!
