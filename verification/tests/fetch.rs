use paged_home::fetch::load_server_fn;
use paged_home::filter::Filter;
use paged_home::home::{body_text, fetch_filter, loading_text};

#[test]
fn a_fetch_with_a_page_greets_with_it() {
    let answer = load_server_fn(Filter { page: Some(1), countries: vec![] });
    assert_eq!(answer.unwrap(), "hello world 1");
    let answer = load_server_fn(Filter { page: Some(0), countries: vec![] });
    assert_eq!(answer.unwrap(), "hello world 0");
    let answer = load_server_fn(Filter { page: Some(250), countries: vec![] });
    assert_eq!(answer.unwrap(), "hello world 250");
    let answer = load_server_fn(Filter { page: Some(usize::MAX), countries: vec![] });
    assert_eq!(answer.unwrap(), format!("hello world {}", usize::MAX));
}

#[test]
fn a_fetch_without_a_page_gets_the_fixed_text() {
    let answer = load_server_fn(Filter { page: None, countries: vec![] });
    assert_eq!(answer.unwrap(), "Page 1");
}

#[test]
fn the_countries_do_not_change_the_answer() {
    let answer = load_server_fn(Filter { page: Some(3), countries: vec![49, -1, 49, 0] });
    assert_eq!(answer.unwrap(), "hello world 3");
    let answer = load_server_fn(Filter { page: None, countries: vec![33, 44] });
    assert_eq!(answer.unwrap(), "Page 1");
}

#[test]
fn the_fetch_filter_always_names_page_one() {
    let pages: Vec<usize> = vec![0, 1, 2, 5, 1000, usize::MAX];
    for page_num in pages {
        let filter = fetch_filter(page_num);
        assert_eq!(filter.page, Some(1));
        assert!(filter.countries.is_empty());
    }
}

#[test]
fn a_filter_can_be_copied() {
    let filter = Filter { page: Some(4), countries: vec![1, 2, 3] };
    let copy = filter.clone();
    assert_eq!(copy.page, Some(4));
    assert_eq!(copy.countries, vec![1, 2, 3]);
    assert_eq!(format!("{:?}", copy), "Filter { page: Some(4), countries: [1, 2, 3] }");
}

#[test]
fn the_body_shows_the_answer() {
    assert_eq!(body_text(Some(Ok("hello world 1".to_string()))), "hello world 1");
    assert_eq!(body_text(Some(Ok(String::new()))), "");
}

#[test]
fn the_body_shows_a_placeholder_for_an_empty_slot() {
    assert_eq!(body_text(None), "error");
}

#[test]
fn the_page_says_that_it_is_loading() {
    assert_eq!(loading_text(), "Loading");
}
