use leptos_router::params::ParamsMap;
use paged_home::page::{next_page_href, next_page_label, page_from_value, page_of_query};

#[test]
fn a_numeric_page_value_is_the_page() {
    assert_eq!(page_from_value(Some("0")), 0);
    assert_eq!(page_from_value(Some("1")), 1);
    assert_eq!(page_from_value(Some("5")), 5);
    assert_eq!(page_from_value(Some("12345")), 12345);
    assert_eq!(page_from_value(Some("+8")), 8);
    assert_eq!(page_from_value(Some("0042")), 42);
    let max = format!("{}", usize::MAX);
    assert_eq!(page_from_value(Some(&max)), usize::MAX);
}

#[test]
fn every_page_number_is_read_back() {
    let mut p: usize = 0;
    while p < 2000 {
        let text = format!("{}", p);
        assert_eq!(page_from_value(Some(&text)), p);
        p += 1;
    }
}

#[test]
fn a_missing_page_value_gives_page_one() {
    assert_eq!(page_from_value(None), 1);
}

#[test]
fn a_page_value_that_is_no_number_gives_page_one() {
    assert_eq!(page_from_value(Some("")), 1);
    assert_eq!(page_from_value(Some("abc")), 1);
    assert_eq!(page_from_value(Some("-3")), 1);
    assert_eq!(page_from_value(Some("3.5")), 1);
    assert_eq!(page_from_value(Some("3 ")), 1);
    assert_eq!(page_from_value(Some("three")), 1);
    assert_eq!(page_from_value(Some("\u{663}")), 1);
}

#[test]
fn a_page_value_above_the_limit_gives_page_one() {
    let above = format!("{}", usize::MAX as u128 + 1);
    assert_eq!(page_from_value(Some(&above)), 1);
    assert_eq!(page_from_value(Some("340282366920938463463374607431768211456")), 1);
}

#[test]
fn an_empty_query_gives_page_one() {
    let query = ParamsMap::new();
    assert_eq!(page_of_query(&query), 1);
}

#[test]
fn the_query_gives_its_page() {
    let mut query = ParamsMap::new();
    query.insert("page", "5".to_string());
    assert_eq!(page_of_query(&query), 5);
}

#[test]
fn other_parameters_do_not_count() {
    let mut query = ParamsMap::new();
    query.insert("pages", "5".to_string());
    query.insert("Page", "6".to_string());
    query.insert("country", "7".to_string());
    assert_eq!(page_of_query(&query), 1);
    query.insert("page", "9".to_string());
    assert_eq!(page_of_query(&query), 9);
}

#[test]
fn the_value_given_last_decides() {
    let mut query = ParamsMap::new();
    query.insert("page", "3".to_string());
    query.insert("page", "7".to_string());
    assert_eq!(page_of_query(&query), 7);
    query.insert("page", "abc".to_string());
    assert_eq!(page_of_query(&query), 1);
    query.replace("page", "4".to_string());
    assert_eq!(page_of_query(&query), 4);
    query.remove("page");
    assert_eq!(page_of_query(&query), 1);
}

#[test]
fn a_query_value_that_is_no_number_gives_page_one() {
    let mut query = ParamsMap::new();
    query.insert("page", "abc".to_string());
    assert_eq!(page_of_query(&query), 1);
}

#[test]
fn the_next_link_names_the_next_page() {
    assert_eq!(next_page_href(0), "/?page=1");
    assert_eq!(next_page_href(1), "/?page=2");
    assert_eq!(next_page_href(5), "/?page=6");
    assert_eq!(next_page_href(9), "/?page=10");
    assert_eq!(next_page_href(99), "/?page=100");
    assert_eq!(next_page_href(12345), "/?page=12346");
}

#[test]
fn the_next_link_goes_on_past_the_limit() {
    let expected = format!("/?page={}", usize::MAX as u128 + 1);
    assert_eq!(next_page_href(usize::MAX), expected);
    let below = format!("/?page={}", usize::MAX);
    assert_eq!(next_page_href(usize::MAX - 1), below);
}

#[test]
fn the_next_link_is_labelled_with_the_page_shown() {
    assert_eq!(next_page_label(1), "Next Page: 1");
    assert_eq!(next_page_label(5), "Next Page: 5");
    assert_eq!(next_page_label(120), "Next Page: 120");
}

#[test]
fn following_the_next_link_advances_by_one() {
    let mut page: usize = 0;
    while page < 500 {
        let href = next_page_href(page);
        let value = href.strip_prefix("/?page=").unwrap();
        assert_eq!(page_from_value(Some(value)), page + 1);
        page += 1;
    }
}
