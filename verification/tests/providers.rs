use spoot::icons;
use spoot::result::{SearchAction, SearchResult};
use spoot::search::{math, web};

fn action_url(r: &SearchResult) -> &str {
    match &r.action {
        Some(SearchAction::OpenUrl(url)) => url.as_str(),
        _ => panic!("expected an OpenUrl action"),
    }
}

#[test]
fn math_evaluates_arithmetic() {
    let mut sink: Vec<SearchResult> = Vec::new();
    math::search("2+2", &mut sink);
    assert_eq!(sink.len(), 1);
    assert_eq!(sink[0].text, "2+2 = 4");
    assert_eq!(sink[0].icon, icons::CALCULATOR);
    assert!(sink[0].action.is_none());
}

#[test]
fn math_uses_the_evaluator_not_the_query() {
    let mut sink: Vec<SearchResult> = Vec::new();
    math::search("4*4", &mut sink);
    assert_eq!(sink.len(), 1);
    assert_eq!(sink[0].text, "4*4 = 16");
}

#[test]
fn math_is_silent_on_malformed_expressions() {
    let mut sink: Vec<SearchResult> = Vec::new();
    math::search("hello world", &mut sink);
    assert!(sink.is_empty());
}

#[test]
fn math_is_silent_on_division_by_zero() {
    let mut sink: Vec<SearchResult> = Vec::new();
    math::search("1/0", &mut sink);
    assert!(sink.is_empty());
}

#[test]
fn web_sends_exactly_one_link() {
    let mut sink: Vec<SearchResult> = Vec::new();
    web::search("hello world", &mut sink);
    assert_eq!(sink.len(), 1);
    assert_eq!(sink[0].text, "hello world");
    assert_eq!(sink[0].icon, icons::SPIDER_WEB);
    assert_eq!(action_url(&sink[0]), "https://google.com/search?q=hello%20world");
}

#[test]
fn percent_encode_keeps_unreserved_bytes() {
    assert_eq!(web::percent_encode("AZaz09-._~"), "AZaz09-._~");
}

#[test]
fn percent_encode_escapes_reserved_bytes() {
    assert_eq!(web::percent_encode(" /+&?="), "%20%2F%2B%26%3F%3D");
}

#[test]
fn percent_encode_escapes_every_utf8_byte() {
    assert_eq!(web::percent_encode("caf\u{e9}"), "caf%C3%A9");
    assert_eq!(web::percent_encode(""), "");
}
