use spoot::icons;
use spoot::result::{SearchAction, SearchResult};
use spoot::search::crates::{CrateRecord, CratesResolver};
use spoot::search::{crates, Searcher};

fn action_url(r: &SearchResult) -> &str {
    match &r.action {
        Some(SearchAction::OpenUrl(url)) => url.as_str(),
        _ => panic!("expected an OpenUrl action"),
    }
}

#[test]
fn change_clears_results_before_any_poll() {
    let mut s = Searcher::new();
    let d = s.replace("2+2");
    s.poll(d.messages);
    assert!(!s.results.is_empty());
    let _ = s.replace("2+3");
    assert!(s.results.is_empty());
}

#[test]
fn end_to_end_four_times_four() {
    let mut s = Searcher::new();
    let d = s.replace("4*4");
    assert!(s.results.is_empty());
    s.poll(d.messages);
    assert_eq!(s.results.len(), 2);
    assert_eq!(s.results[0].text, "4*4 = 16");
    assert_eq!(s.results[0].icon, icons::CALCULATOR);
    assert_eq!(s.results[1].text, "4*4");
    assert_eq!(action_url(&s.results[1]), "https://google.com/search?q=4%2A4");
    let remote = d.remote.expect("a non-empty query is submitted to the remote worker");
    assert_eq!(remote.query, "4*4");
}

#[test]
fn empty_query_invokes_no_provider() {
    let mut s = Searcher::new();
    let d = s.replace("");
    assert!(d.messages.is_empty());
    assert!(d.remote.is_none());
    s.poll(d.messages);
    assert!(s.results.is_empty());
}

#[test]
fn poll_is_idempotent_without_new_traffic() {
    let mut s = Searcher::new();
    let d = s.replace("1+1");
    s.poll(d.messages);
    let before: Vec<String> = s.results.iter().map(|r| r.text.clone()).collect();
    s.poll(Vec::new());
    let after: Vec<String> = s.results.iter().map(|r| r.text.clone()).collect();
    assert_eq!(before, after);
}

#[test]
fn poll_without_an_open_round_is_a_no_op() {
    let mut s = Searcher::new();
    s.poll(Vec::new());
    assert!(s.results.is_empty());
}

#[test]
fn stale_round_messages_never_join_the_list() {
    let mut s = Searcher::new();
    let d1 = s.replace("first");
    let d2 = s.replace("second");
    s.poll(d1.messages);
    assert!(s.results.is_empty());
    s.poll(d2.messages);
    assert_eq!(s.results.len(), 1);
    assert_eq!(s.results[0].text, "second");
}

#[test]
fn resolver_coalesces_to_the_latest_submission() {
    let mut r = CratesResolver::new();
    assert!(r.take().is_none());
    crates::search("first", 1, &mut r);
    crates::search("second", 2, &mut r);
    let p = r.take().expect("the latest submission is pending");
    assert_eq!(p.query, "second");
    assert_eq!(p.round, 2);
    assert!(r.take().is_none(), "a submission is serviced at most once");
}

#[test]
fn crate_records_become_registry_results() {
    let records = vec![
        CrateRecord { name: String::from("serde"), max_version: String::from("1.0.0") },
        CrateRecord { name: String::from("anyhow"), max_version: String::from("1.0.1") },
    ];
    let out = crates::crate_results(records);
    assert_eq!(out.len(), 2);
    assert_eq!(out[0].text, "serde@1.0.0");
    assert_eq!(out[0].icon, icons::SHROOM);
    assert_eq!(action_url(&out[0]), "https://crates.io/crates/serde/1.0.0");
    assert_eq!(out[1].text, "anyhow@1.0.1");
}

#[test]
fn edits_go_through_character_indices() {
    let mut s = Searcher::new();
    let (n, _) = s.insert_text("h\u{e9}llo", 0);
    assert_eq!(n, 5);
    assert_eq!(s.as_str(), "h\u{e9}llo");
    let (n, _) = s.insert_text("x", 1);
    assert_eq!(n, 1);
    assert_eq!(s.as_str(), "hx\u{e9}llo");
    let _ = s.delete_char_range(1, 3);
    assert_eq!(s.as_str(), "hllo");
    let (n, _) = s.insert_text("!", 99);
    assert_eq!(n, 1);
    assert_eq!(s.as_str(), "hllo!");
}

#[test]
fn take_returns_the_text_and_resets() {
    let mut s = Searcher::new();
    let _ = s.replace("abc");
    let (text, d) = s.take();
    assert_eq!(text, "abc");
    assert_eq!(s.as_str(), "");
    assert!(d.messages.is_empty());
    assert!(d.remote.is_none());
    assert!(s.is_mutable());
}

#[test]
fn clear_empties_the_query() {
    let mut s = Searcher::new();
    let _ = s.replace("abc");
    let d = s.clear();
    assert_eq!(s.as_str(), "");
    assert!(d.messages.is_empty());
    assert!(s.results.is_empty());
}

#[test]
fn byte_index_counts_utf8_widths() {
    let mut s = Searcher::new();
    let _ = s.replace("h\u{e9}llo");
    assert_eq!(s.byte_index_from_char_index(0), 0);
    assert_eq!(s.byte_index_from_char_index(1), 1);
    assert_eq!(s.byte_index_from_char_index(2), 3);
    assert_eq!(s.byte_index_from_char_index(99), 6);
}

#[test]
fn dispatch_tags_every_message_with_the_round() {
    let mut s = Searcher::new();
    let d1 = s.replace("1+1");
    let d2 = s.replace("2+2");
    for m in &d1.messages {
        assert_eq!(m.round, 1);
    }
    for m in &d2.messages {
        assert_eq!(m.round, 2);
    }
    assert_eq!(d2.remote.unwrap().round, 2);
}
