use oghab_vpn::fetch::{client_failure, fetch_source_text, FetchOutcome, SourceFetch};
use oghab_vpn::scan::ScanState;
use oghab_vpn::sources::{merge_source_urls, vless_uris, EXTRA_SOURCE_URL, SOURCE_URL};

fn owned(items: &[&str]) -> Vec<String> {
    items.iter().map(|item| item.to_string()).collect()
}

#[test]
fn usual_lists_if_none_is_given() {
    assert_eq!(merge_source_urls(Vec::new()), owned(&[SOURCE_URL, EXTRA_SOURCE_URL]));
}

#[test]
fn lists_are_trimmed_and_unique() {
    assert_eq!(
        merge_source_urls(owned(&[" b ", "a", "", "b", "  ", "a ", "c"])),
        owned(&["b", "a", "c"])
    );
}

#[test]
fn blank_lists_leave_nothing() {
    assert!(merge_source_urls(owned(&[" ", ""])).is_empty());
}

#[test]
fn merging_twice_is_merging_once() {
    let merged = merge_source_urls(owned(&[" b ", "a", "b"]));
    assert_eq!(merge_source_urls(merged.clone()), merged);
}

#[test]
fn further_lists_come_behind() {
    let merged = merge_source_urls(owned(&["b", "a", "c", "a", "b"]));
    assert_eq!(merged[..2], merge_source_urls(owned(&["b", "a"]))[..]);
}

#[test]
fn uris_of_a_list() {
    let text = "# comment\r\n vless://a \r\nvmess://b\n\n\tvless://c\nVLESS://d\nvless:/e\nvless://f";
    assert_eq!(vless_uris(text), owned(&["vless://a", "vless://c", "vless://f"]));
    assert!(vless_uris("").is_empty());
}

#[test]
fn lists_do_not_run_together() {
    let mut state = ScanState::default();
    let mut fetch = SourceFetch::new();
    fetch.record(&mut state, "u1", FetchOutcome::Text("vless://a\r\nvless://b".to_string()));
    fetch.record(&mut state, "u2", FetchOutcome::Refused("404".to_string()));
    fetch.record(&mut state, "u3", FetchOutcome::Text("vless://c\n".to_string()));
    let text = fetch_source_text(fetch).unwrap();
    assert_eq!(text, "vless://a\r\nvless://b\nvless://c\n\n");
    assert_eq!(vless_uris(&text), owned(&["vless://a", "vless://b", "vless://c"]));
    assert_eq!(state.lines, owned(&["Source request failed for u2: 404"]));
}

#[test]
fn failures_are_logged() {
    let mut state = ScanState::default();
    let mut fetch = SourceFetch::new();
    fetch.record(&mut state, "u1", FetchOutcome::Unreadable("e1".to_string()));
    fetch.record(&mut state, "u2", FetchOutcome::Unanswered("e2".to_string()));
    assert_eq!(
        state.lines,
        owned(&["Failed to read source u1: e1", "Failed to fetch source u2: e2"])
    );
    assert_eq!(fetch_source_text(fetch), Err("Failed to fetch any source list".to_string()));
}

#[test]
fn empty_list_is_a_list() {
    let mut state = ScanState::default();
    let mut fetch = SourceFetch::new();
    fetch.record(&mut state, "u", FetchOutcome::Text(String::new()));
    assert_eq!(fetch_source_text(fetch), Ok("\n".to_string()));
}

#[test]
fn failure_of_the_client() {
    assert_eq!(client_failure("x"), "Failed to build HTTP client: x");
}
