use gateway_lib::dispatch::ServiceUrls;
use gateway_lib::id::{IdError, Model, Service, ID};
use gateway_lib::pagination::{paginate, paginate_search, plan_page, Edge, PageRequest};

fn users(ids: &[i32]) -> Vec<(i32, String)> {
    ids.iter().map(|i| (*i, format!("user {}", i))).collect()
}

fn cursor(raw: i32) -> String {
    ID::new(Service::Users, Model::User, raw).to_string()
}

fn urls() -> ServiceUrls {
    ServiceUrls {
        users: "http://users".to_string(),
        stores: "http://stores".to_string(),
        orders: "http://orders".to_string(),
        billing: "http://billing".to_string(),
        warehouses: "http://warehouses".to_string(),
        delivery: "http://delivery".to_string(),
    }
}

#[test]
fn first_two_of_five_from_the_start() {
    let backing = [0, 1, 2, 3, 4];
    let plan = plan_page(Some(2), None, 10).unwrap();
    assert_eq!(plan, PageRequest { offset: 0, first: 2 });
    assert_eq!(plan.fetch_count(), 3);
    let start = plan.offset as usize;
    let fetched = users(&backing[start..start + plan.fetch_count() as usize]);
    let page = paginate(fetched, Service::Users, Model::User, plan.first as i32);
    assert_eq!(page.edges.len(), 2);
    assert_eq!(page.edges[0].node, "user 0");
    assert_eq!(page.edges[1].node, "user 1");
    assert!(page.page_info.has_next_page);
    assert!(page.page_info.has_previous_page);
    assert_eq!(page.page_info.start_cursor, Some(cursor(0)));
    assert_eq!(page.page_info.end_cursor, Some(cursor(1)));
}

#[test]
fn full_over_fetch_drops_the_extra_item() {
    let page = paginate(users(&[5, 6, 7, 8]), Service::Users, Model::User, 3);
    assert!(page.page_info.has_next_page);
    assert_eq!(page.edges.len(), 3);
    let cursors: Vec<String> = page.edges.iter().map(|e| e.cursor.clone()).collect();
    assert_eq!(cursors, vec![cursor(5), cursor(6), cursor(7)]);
}

#[test]
fn short_fetch_keeps_everything() {
    let page = paginate(users(&[5, 6]), Service::Users, Model::User, 3);
    assert!(!page.page_info.has_next_page);
    assert_eq!(page.edges.len(), 2);
    assert_eq!(page.page_info.end_cursor, Some(cursor(6)));
}

#[test]
fn exactly_n_items_means_no_next_page() {
    let page = paginate(users(&[1, 2, 3]), Service::Users, Model::User, 3);
    assert!(!page.page_info.has_next_page);
    assert_eq!(page.edges.len(), 3);
}

#[test]
fn empty_fetch_gives_empty_page() {
    for first in [-3, -1, 0, 1, 10].iter() {
        let page = paginate(Vec::<(i32, String)>::new(), Service::Users, Model::User, *first);
        assert!(page.edges.is_empty());
        assert!(!page.page_info.has_next_page);
        assert!(page.page_info.has_previous_page);
        assert_eq!(page.page_info.start_cursor, None);
        assert_eq!(page.page_info.end_cursor, None);
    }
}

#[test]
fn zero_or_negative_first_gives_valid_page() {
    let page = paginate(users(&[4]), Service::Users, Model::User, 0);
    assert!(page.edges.is_empty());
    assert!(page.page_info.has_next_page);
    let page = paginate(users(&[4]), Service::Users, Model::User, -5);
    assert!(page.edges.is_empty());
    assert!(page.page_info.has_next_page);
}

#[test]
fn cursors_name_the_collection_service() {
    let page = paginate(vec![(9, ())], Service::Stores, Model::Store, 5);
    assert_eq!(page.edges[0].cursor, "2:3:9");
}

#[test]
fn plan_page_clamps_to_the_limit() {
    assert_eq!(plan_page(None, None, 20), Ok(PageRequest { offset: 0, first: 20 }));
    assert_eq!(plan_page(Some(50), None, 20), Ok(PageRequest { offset: 0, first: 20 }));
    assert_eq!(plan_page(Some(-4), None, 20), Ok(PageRequest { offset: 0, first: 0 }));
    assert_eq!(plan_page(Some(7), None, 20), Ok(PageRequest { offset: 0, first: 7 }));
}

#[test]
fn plan_page_decodes_the_after_cursor() {
    let after = cursor(31);
    assert_eq!(plan_page(Some(5), Some(&after), 20), Ok(PageRequest { offset: 31, first: 5 }));
    assert_eq!(plan_page(Some(5), Some("not an id"), 20), Err(IdError::Malformed));
    assert_eq!(plan_page(Some(5), Some("9:1:1"), 20), Err(IdError::UnknownTag));
}

#[test]
fn fetch_url_asks_one_more() {
    let plan = PageRequest { offset: 31, first: 5 };
    assert_eq!(
        plan.fetch_url(&urls(), Service::Users, Model::User),
        "http://users/users?offset=31&count=6"
    );
}

fn search_edges(n: i32) -> Vec<Edge<i32>> {
    (0..n).map(|i| Edge::new(format!("order-{}", i), i)).collect()
}

#[test]
fn search_page_slices_and_counts_pages() {
    let page = paginate_search(search_edges(7), 2, 3, 100, "options");
    assert_eq!(page.page_info.total_pages, 3);
    assert_eq!(page.page_info.current_page, 2);
    assert_eq!(page.page_info.page_items_count, 3);
    assert_eq!(page.page_info.search_term_options, "options");
    let nodes: Vec<i32> = page.edges.iter().map(|e| e.node).collect();
    assert_eq!(nodes, vec![3, 4, 5]);
    assert_eq!(page.edges[0].cursor, "order-3");
}

#[test]
fn search_last_page_is_partial() {
    let page = paginate_search(search_edges(7), 3, 3, 100, ());
    let nodes: Vec<i32> = page.edges.iter().map(|e| e.node).collect();
    assert_eq!(nodes, vec![6]);
}

#[test]
fn search_page_size_is_limited() {
    let page = paginate_search(search_edges(10), 1, 8, 4, ());
    assert_eq!(page.page_info.total_pages, 2);
    let nodes: Vec<i32> = page.edges.iter().map(|e| e.node).collect();
    assert_eq!(nodes, vec![0, 1, 2, 3]);
}

#[test]
fn search_out_of_range_pages_are_empty() {
    assert!(paginate_search(search_edges(7), 4, 3, 100, ()).edges.is_empty());
    assert!(paginate_search(search_edges(7), 0, 3, 100, ()).edges.is_empty());
    let none = paginate_search(search_edges(7), 1, 0, 100, ());
    assert!(none.edges.is_empty());
    assert_eq!(none.page_info.total_pages, 0);
    let empty = paginate_search(search_edges(0), 1, 5, 100, ());
    assert_eq!(empty.page_info.total_pages, 0);
    assert!(empty.edges.is_empty());
}
