//! Cursor pagination over the backend collections.
//!
//! A page of `first` items is fetched as `first + 1` items from an offset: if
//! the extra item arrives there is a next page, and it is dropped. Every edge
//! carries the global identifier of its node as cursor, and a cursor given as
//! `after` is decoded back to the offset to fetch from.
use vstd::prelude::*;
use crate::dispatch::{joined, list_path, list_path_of, request, Method, ServiceUrls};
use crate::id::{decode_spec, IdError, Model, Service, ID};

verus! {

/// One node of a page, with its cursor.
#[derive(Clone, Debug)]
pub struct Edge<T> {
    pub cursor: String,
    pub node: T,
}

impl<T> Edge<T> {
    pub fn new(cursor: String, node: T) -> (r: Edge<T>)
        ensures
            r.cursor@ == cursor@,
            r.node == node,
    {
        Edge { cursor, node }
    }
}

/// Navigation data of a cursor page.
#[derive(Clone, Debug)]
pub struct PageInfo {
    pub has_next_page: bool,
    /// Always `true`: the protocol does not look for a previous page.
    pub has_previous_page: bool,
    pub start_cursor: Option<String>,
    pub end_cursor: Option<String>,
}

/// A page of nodes and its navigation data.
#[derive(Clone, Debug)]
pub struct Connection<T, P> {
    pub edges: Vec<Edge<T>>,
    pub page_info: P,
}

impl<T, P> Connection<T, P> {
    pub fn new(edges: Vec<Edge<T>>, page_info: P) -> (r: Connection<T, P>)
        ensures
            r.edges@ == edges@,
            r.page_info == page_info,
    {
        Connection { edges, page_info }
    }
}

/// The cursor of the entity `raw_id` of kind `model` owned by `service`.
pub open spec fn cursor_of(service: Service, model: Model, raw_id: i32) -> Seq<char> {
    (ID { service, model, raw_id }).text()
}

/// A requested page size below zero asks for an empty page.
pub open spec fn page_size(first: i32) -> int {
    if first < 0 {
        0
    } else {
        first as int
    }
}

/// How many edges a page keeps of `fetched` items when `n` were asked for.
pub open spec fn kept(fetched: int, n: int) -> int {
    if fetched == n + 1 {
        n
    } else {
        fetched
    }
}

/// Builds the page of the items fetched for a request of `first` items.
///
/// `items` are the entity numbers and nodes in the order the service returned
/// them, fetched with one item more than the page size.
pub fn paginate<T>(items: Vec<(i32, T)>, service: Service, model: Model, first: i32) -> (r:
    Connection<T, PageInfo>)
    requires
        forall|i: int| 0 <= i < items@.len() ==> (#[trigger] items@[i]).0 >= 0,
    ensures
        r.page_info.has_next_page == (items@.len() == page_size(first) + 1),
        r.page_info.has_previous_page,
        r.edges@.len() == kept(items@.len() as int, page_size(first)),
        items@.len() == 0 ==> r.edges@.len() == 0 && !r.page_info.has_next_page,
        forall|i: int|
            0 <= i < r.edges@.len() ==> {
                &&& (#[trigger] r.edges@[i]).node == items@[i].1
                &&& r.edges@[i].cursor@ == cursor_of(service, model, items@[i].0)
            },
        r.page_info.start_cursor is None <==> r.edges@.len() == 0,
        r.page_info.end_cursor is None <==> r.edges@.len() == 0,
        r.page_info.start_cursor matches Some(c) ==> c@ == r.edges@[0].cursor@,
        r.page_info.end_cursor matches Some(c) ==> c@ == r.edges@.last().cursor@,
{
    let ghost orig = items@;
    let total = items.len();
    let mut rest = items;
    let mut edges: Vec<Edge<T>> = Vec::new();
    while rest.len() > 0
        invariant
            edges@.len() <= total,
            total == orig.len(),
            rest@ == orig.subrange(edges@.len() as int, total as int),
            forall|i: int| 0 <= i < orig.len() ==> (#[trigger] orig[i]).0 >= 0,
            forall|i: int|
                0 <= i < edges@.len() ==> {
                    &&& (#[trigger] edges@[i]).node == orig[i].1
                    &&& edges@[i].cursor@ == cursor_of(service, model, orig[i].0)
                },
        decreases rest@.len(),
    {
        let ghost k = edges@.len() as int;
        let (raw_id, node) = rest.remove(0);
        assert(orig[k] == (raw_id, node));
        let id = ID::new(service, model, raw_id);
        let cursor = id.to_string();
        edges.push(Edge { cursor, node });
        assert(rest@ =~= orig.subrange(edges@.len() as int, total as int));
    }
    assert(edges@.len() == total);
    let n: usize = if first < 0 {
        0
    } else {
        first as usize
    };
    let has_next_page = edges.len() == n + 1;
    if has_next_page {
        edges.pop();
    }
    let start_cursor = if edges.len() > 0 {
        Some(edges[0].cursor.clone())
    } else {
        None
    };
    let end_cursor = if edges.len() > 0 {
        Some(edges[edges.len() - 1].cursor.clone())
    } else {
        None
    };
    let page_info = PageInfo { has_next_page, has_previous_page: true, start_cursor, end_cursor };
    Connection { edges, page_info }
}

/// Where to fetch a page from, and how many items it holds.
#[derive(Clone, Copy, Debug, PartialEq, Eq, Structural)]
pub struct PageRequest {
    /// The entity number to fetch from.
    pub offset: i32,
    /// The page size, at most the configured limit.
    pub first: u32,
}

/// The page size: the requested one, or the limit when none is given or it is
/// larger, and no less than zero.
pub open spec fn clamped_first(first: Option<i32>, records_limit: u32) -> int {
    let asked: int = match first {
        Some(f) => f as int,
        None => records_limit as int,
    };
    if asked < 0 {
        0
    } else if asked > records_limit {
        records_limit as int
    } else {
        asked
    }
}

/// The page that a request for `first` items after the cursor `after` asks for.
pub open spec fn plan_page_spec(first: Option<i32>, after: Option<Seq<char>>, records_limit: u32) -> Result<
    PageRequest,
    IdError,
> {
    let size = clamped_first(first, records_limit) as u32;
    match after {
        None => Ok(PageRequest { offset: 0, first: size }),
        Some(text) => match decode_spec(text) {
            Ok(id) => Ok(PageRequest { offset: id.raw_id, first: size }),
            Err(e) => Err(e),
        },
    }
}

/// The text of an optional cursor.
pub open spec fn text_of(after: Option<&str>) -> Option<Seq<char>> {
    match after {
        Some(a) => Some(a@),
        None => None,
    }
}

impl PageRequest {
    /// How many items to fetch: one more than the page size.
    pub fn fetch_count(&self) -> (r: u64)
        ensures
            r == self.first + 1,
    {
        self.first as u64 + 1
    }

    /// The URL that fetches the page, one item more than its size.
    pub fn fetch_url(&self, urls: &ServiceUrls, service: Service, model: Model) -> (r: String)
        requires
            self.offset >= 0,
        ensures
            r@ == joined(
                urls.url_of(service),
                list_path(model, self.offset as nat, self.first as nat + 1),
            ),
    {
        let path = list_path_of(model, self.offset as u64, self.fetch_count());
        request(urls, service, Method::Get, path.as_str(), None).url
    }
}

/// Resolves `first` and `after` of a request into where to fetch and how much.
pub fn plan_page(first: Option<i32>, after: Option<&str>, records_limit: u32) -> (r: Result<
    PageRequest,
    IdError,
>)
    ensures
        r == plan_page_spec(first, text_of(after), records_limit),
        r matches Ok(p) ==> p.offset >= 0 && p.first <= records_limit,
{
    let asked: i64 = match first {
        Some(f) => f as i64,
        None => records_limit as i64,
    };
    let size: u32 = if asked < 0 {
        0
    } else if asked > records_limit as i64 {
        records_limit
    } else {
        asked as u32
    };
    match after {
        None => Ok(PageRequest { offset: 0, first: size }),
        Some(text) => match ID::from_str(text) {
            Ok(id) => Ok(PageRequest { offset: id.raw_id, first: size }),
            Err(e) => Err(e),
        },
    }
}

/// Navigation data of a page of search results.
#[derive(Clone, Debug)]
pub struct PageInfoOrdersSearch<S> {
    pub total_pages: i32,
    pub current_page: i32,
    pub page_items_count: i32,
    /// The search parameters, echoed back.
    pub search_term_options: S,
}

/// The number of pages of `page_items` items that `total` items fill.
pub open spec fn pages_for(total: int, page_items: int) -> int {
    if page_items <= 0 {
        0
    } else {
        (total + page_items - 1) / page_items
    }
}

/// The first item of page `current_page` (counted from 1).
pub open spec fn search_offset(current_page: i32, items_count: i32) -> int {
    items_count * (current_page - 1)
}

/// The number of items a search page holds at most.
pub open spec fn search_count(items_count: i32, records_limit: u32) -> int {
    if items_count < records_limit {
        items_count as int
    } else {
        records_limit as int
    }
}

/// Whether the page window is empty before it meets the results.
pub open spec fn search_window_empty(len: int, current_page: i32, items_count: i32, records_limit: u32) -> bool {
    search_offset(current_page, items_count) < 0 || search_count(items_count, records_limit) <= 0
        || search_offset(current_page, items_count) >= len
}

/// The end of the page window within `len` results.
pub open spec fn search_end(len: int, current_page: i32, items_count: i32, records_limit: u32) -> int {
    let end = search_offset(current_page, items_count) + search_count(items_count, records_limit);
    if end < len {
        end
    } else {
        len
    }
}

/// Cuts page `current_page` of `items_count` items out of the full list of
/// search results, edges keeping the cursors the search gave them.
pub fn paginate_search<T, S>(
    edges: Vec<Edge<T>>,
    current_page: i32,
    items_count: i32,
    records_limit: u32,
    search_term_options: S,
) -> (r: Connection<T, PageInfoOrdersSearch<S>>)
    requires
        edges@.len() <= i32::MAX,
    ensures
        r.page_info.total_pages == pages_for(edges@.len() as int, items_count as int),
        r.page_info.current_page == current_page,
        r.page_info.page_items_count == items_count,
        r.page_info.search_term_options == search_term_options,
        search_window_empty(edges@.len() as int, current_page, items_count, records_limit)
            ==> r.edges@.len() == 0,
        !search_window_empty(edges@.len() as int, current_page, items_count, records_limit)
            ==> r.edges@ == edges@.subrange(
            search_offset(current_page, items_count),
            search_end(edges@.len() as int, current_page, items_count, records_limit),
        ),
{
    let len = edges.len();
    let total_pages: i32 = if items_count <= 0 {
        0
    } else {
        let l = len as i64;
        let c = items_count as i64;
        assert((l + c - 1) / (c as int) <= l || l == 0) by (nonlinear_arith)
            requires
                l >= 0,
                c >= 1,
        ;
        assert(0 <= (l + c - 1) / (c as int)) by (nonlinear_arith)
            requires
                l >= 0,
                c >= 1,
        ;
        assert(l == 0 ==> (l + c - 1) / (c as int) == 0) by (nonlinear_arith)
            requires
                l >= 0,
                c >= 1,
        ;
        ((l + c - 1) / c) as i32
    };
    let ic = items_count as i64;
    let pm = current_page as i64 - 1;
    assert(-0x4000_0001_0000_0000 <= ic * pm <= 0x4000_0001_0000_0000) by (nonlinear_arith)
        requires
            -0x8000_0000 <= ic <= 0x7fff_ffff,
            -0x8000_0001 <= pm <= 0x7fff_fffe,
    ;
    let offset: i64 = ic * pm;
    let count: i64 = if (items_count as i64) < records_limit as i64 {
        items_count as i64
    } else {
        records_limit as i64
    };
    let page = if offset < 0 || count <= 0 || offset >= len as i64 {
        Vec::new()
    } else {
        let end: i64 = if offset + count < len as i64 {
            offset + count
        } else {
            len as i64
        };
        let mut window = edges;
        window.truncate(end as usize);
        window.split_off(offset as usize)
    };
    let page_info = PageInfoOrdersSearch {
        total_pages,
        current_page,
        page_items_count: items_count,
        search_term_options,
    };
    Connection { edges: page, page_info }
}

/// The page of `n` items built from `n + 1` fetched items has `n` edges and
/// a next page; from fewer than `n + 1` it keeps them all and has none.
pub proof fn lemma_over_fetch(n: int, fetched: int)
    requires
        n >= 0,
        0 <= fetched <= n + 1,
    ensures
        fetched == n + 1 ==> kept(fetched, n) == n,
        fetched < n + 1 ==> kept(fetched, n) == fetched,
{
}

} // verus!
