use spotify_client::object::{Cursor, CursorPagingObject, PageWalk, PagingObject};

fn page(href: &str, items: Vec<u32>, previous: Option<&str>, next: Option<&str>) -> PagingObject<u32> {
    PagingObject {
        href: href.to_string(),
        items,
        limit: 50,
        next: next.map(|s| s.to_string()),
        offset: None,
        previous: previous.map(|s| s.to_string()),
        total: None,
    }
}

fn cursor_page(href: &str, items: Vec<u32>, next: Option<&str>) -> CursorPagingObject<u32> {
    CursorPagingObject {
        href: href.to_string(),
        items,
        limit: 5,
        next: next.map(|s| s.to_string()),
        cursors: Cursor { after: String::new() },
        total: None,
    }
}

fn fetch(pages: &[PagingObject<u32>], href: &str) -> PagingObject<u32> {
    pages.iter().find(|p| p.href == href).expect("no such page").clone()
}

fn walk_from(pages: &[PagingObject<u32>], start: usize) -> (Vec<u32>, Vec<String>) {
    let mut walk = PageWalk::new(pages[start].clone());
    let mut fetched = Vec::new();
    while let Some(url) = walk.pending() {
        fetched.push(url.clone());
        walk.feed(fetch(pages, &url));
    }
    (walk.into_items(), fetched)
}

fn three_pages() -> Vec<PagingObject<u32>> {
    vec![
        page("p0", vec![1, 2], None, Some("p1")),
        page("p1", vec![3, 4, 5], Some("p0"), Some("p2")),
        page("p2", vec![6, 7], Some("p1"), None),
    ]
}

#[test]
fn page_chain_flattening() {
    let pages = three_pages();
    let (items, fetched) = walk_from(&pages, 1);
    assert_eq!(items, vec![1, 2, 3, 4, 5, 6, 7]);
    assert_eq!(fetched, vec!["p0".to_string(), "p2".to_string()]);
}

#[test]
fn page_chain_from_each_end() {
    let pages = three_pages();
    assert_eq!(walk_from(&pages, 0).0, vec![1, 2, 3, 4, 5, 6, 7]);
    assert_eq!(walk_from(&pages, 2).0, vec![1, 2, 3, 4, 5, 6, 7]);
}

#[test]
fn single_page() {
    let pages = vec![page("only", vec![9], None, None)];
    let (items, fetched) = walk_from(&pages, 0);
    assert_eq!(items, vec![9]);
    assert!(fetched.is_empty());
}

#[test]
fn cursor_chain_flattening() {
    let pages = vec![cursor_page("c0", vec![1, 2, 3, 4, 5], Some("c1")), cursor_page("c1", vec![6, 7, 8, 9, 10], None)];
    let mut walk = PageWalk::from_cursor_page(pages[0].clone());
    let mut fetched = Vec::new();
    while let Some(url) = walk.pending() {
        fetched.push(url.clone());
        let next = pages.iter().find(|p| p.href == url).unwrap().clone();
        walk.feed_cursor_page(next);
    }
    assert_eq!(walk.into_items(), (1..=10).collect::<Vec<u32>>());
    assert_eq!(fetched, vec!["c1".to_string()]);
}

#[test]
fn empty_intermediate_page() {
    let pages = vec![
        page("p0", vec![1], None, Some("p1")),
        page("p1", vec![], Some("p0"), Some("p2")),
        page("p2", vec![2, 3], Some("p1"), None),
    ];
    assert_eq!(walk_from(&pages, 0).0, vec![1, 2, 3]);
    assert_eq!(walk_from(&pages, 2).0, vec![1, 2, 3]);
}

#[test]
fn get_items_copies() {
    let p = page("p", vec![4, 5], None, None);
    assert_eq!(p.get_items(), vec![4, 5]);
    let c = cursor_page("c", vec![6], None);
    assert_eq!(c.get_items(), vec![6]);
}
