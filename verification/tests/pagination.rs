use admin_views::listing::{cut_page, list_pager};
use admin_views::pagination::{ListParams, Pagination};

fn params() -> ListParams {
    ListParams { q: None, page: None, per_page: None, sort: None, order: None }
}

fn pager(page: u64, per_page: u64, total: u64) -> Pagination {
    let mut p = Pagination::new(
        &ListParams { page: Some(page), per_page: Some(per_page), ..params() },
        "name",
    );
    p.total = total;
    p
}

#[test]
fn missing_parameters_take_defaults() {
    let p = list_pager(&params());
    assert_eq!((p.page, p.per_page, p.total), (1, 100, 0));
    assert_eq!((p.q.as_str(), p.sort.as_str(), p.order.as_str()), ("", "name", "asc"));
    assert_eq!(p.current_qs(), "?sort=name&order=asc&per_page=100&page=1");
}

#[test]
fn parameters_are_brought_within_limits() {
    let low = pager(0, 0, 0);
    assert_eq!((low.page, low.per_page), (1, 1));
    let high = pager(7, 5000, 0);
    assert_eq!((high.page, high.per_page), (7, 1000));
}

#[test]
fn only_desc_is_descending() {
    for (given, expected) in [("desc", "desc"), ("DESC", "asc"), ("", "asc"), ("asc", "asc")] {
        let p = Pagination::new(
            &ListParams { order: Some(given.to_string()), ..params() },
            "name",
        );
        assert_eq!(p.order, expected);
    }
}

#[test]
fn blank_sort_column_takes_the_default() {
    let p = Pagination::new(&ListParams { sort: Some(String::new()), ..params() }, "spn");
    assert_eq!(p.sort, "spn");
}

#[test]
fn rows_and_pages() {
    let p = pager(3, 10, 25);
    assert_eq!(p.start_index(), 21);
    assert_eq!(p.from_row(), 21);
    assert_eq!(p.to_row(), 25);
    assert_eq!(p.total_pages(), 3);
    assert!(p.has_prev());
    assert!(!p.has_next());
    assert_eq!((p.prev_page(), p.next_page()), (2, 4));
    let first = pager(1, 10, 25);
    assert_eq!((first.from_row(), first.to_row()), (1, 10));
    assert!(!first.has_prev());
    assert!(first.has_next());
    assert_eq!(first.prev_page(), 1);
}

#[test]
fn empty_list_has_one_page() {
    let p = pager(1, 10, 0);
    assert_eq!((p.total_pages(), p.from_row(), p.to_row()), (1, 0, 0));
    assert!(!p.has_next());
}

#[test]
fn full_last_page_is_not_followed_by_an_empty_one() {
    assert_eq!(pager(1, 10, 20).total_pages(), 2);
    assert_eq!(pager(1, 10, 21).total_pages(), 3);
}

#[test]
fn each_row_is_on_one_page() {
    for row in 1u64..=25 {
        let pages: Vec<u64> = (1u64..=3)
            .filter(|&n| {
                let p = pager(n, 10, 25);
                p.start_index() <= row && row <= p.to_row()
            })
            .collect();
        assert_eq!(pages.len(), 1);
    }
}

#[test]
fn sort_link_toggles_and_returns_to_the_first_page() {
    let p = Pagination::new(
        &ListParams { q: Some("bob".to_string()), page: Some(4), ..params() },
        "name",
    );
    assert_eq!(p.sort_next_order("name"), "desc");
    assert_eq!(p.sort_next_order("spn"), "asc");
    assert_eq!(p.sort_link("name"), "?q=bob&sort=name&order=desc&per_page=100&page=1");
    assert_eq!(p.sort_link("spn"), "?q=bob&sort=spn&order=asc&per_page=100&page=1");
    assert_eq!(p.sort_indicator("name"), " \u{25B2}");
    assert_eq!(p.sort_indicator("spn"), "");
    let down = Pagination::new(
        &ListParams { order: Some("desc".to_string()), ..params() },
        "name",
    );
    assert_eq!(down.sort_indicator("name"), " \u{25BC}");
    assert_eq!(down.sort_next_order("name"), "asc");
}

#[test]
fn links_are_form_encoded() {
    let p = Pagination::new(
        &ListParams { q: Some("a b&c=d/\u{e9}%".to_string()), ..params() },
        "name",
    );
    assert_eq!(
        p.page_link(2),
        "?q=a+b%26c%3Dd%2F%C3%A9%25&sort=name&order=asc&per_page=100&page=2"
    );
}

#[test]
fn current_query_restores_the_view() {
    let p = Pagination::new(
        &ListParams {
            q: Some("x y".to_string()),
            page: Some(3),
            per_page: Some(20),
            sort: Some("spn".to_string()),
            order: Some("desc".to_string()),
        },
        "name",
    );
    let query = p.current_qs();
    let mut back = params();
    for (name, value) in url::form_urlencoded::parse(query[1..].as_bytes()) {
        match name.as_ref() {
            "q" => back.q = Some(value.to_string()),
            "page" => back.page = value.parse().ok(),
            "per_page" => back.per_page = value.parse().ok(),
            "sort" => back.sort = Some(value.to_string()),
            "order" => back.order = Some(value.to_string()),
            _ => panic!("unexpected parameter"),
        }
    }
    let again = Pagination::new(&back, "name");
    assert_eq!(again.current_qs(), query);
}

#[test]
fn pages_make_up_the_list() {
    let rows: Vec<u32> = (0..25).collect();
    let mut all: Vec<u32> = Vec::new();
    for page in 1..=3 {
        all.extend(cut_page(rows.clone(), page, 10));
    }
    assert_eq!(all, rows);
    assert!(cut_page(rows, 4, 10).is_empty());
}
