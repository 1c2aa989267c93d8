use stream_latency::filter::AccountFilter;
use stream_latency::filter::CommitmentLevel;
use stream_latency::filter::FilterSubscriptionRequest;
use stream_latency::filter::X_TOKEN_HEADER;
use stream_latency::filter::all_updates_request;
use stream_latency::filter::build_subscription;
use stream_latency::filter::token_header;

#[test]
fn all_updates_request_shape() {
    let r = all_updates_request();
    assert_eq!(r.entries.len(), 1);
    assert_eq!(r.entries[0].name.as_str(), "slot_account_updates");
    assert!(r.entries[0].filter.accounts.is_empty());
    assert!(r.entries[0].filter.owners.is_empty());
    assert!(r.entries[0].filter.sub_filters.is_empty());
    assert_eq!(r.commitment, CommitmentLevel::Processed);
    assert_eq!(r.commitment.wire_code(), 0);
}

#[test]
fn commitment_levels_have_distinct_wire_codes() {
    assert_eq!(CommitmentLevel::Processed.wire_code(), 0);
    assert_eq!(CommitmentLevel::Confirmed.wire_code(), 1);
    assert_eq!(CommitmentLevel::Finalized.wire_code(), 2);
}

#[test]
fn duplicate_filter_names_are_refused() {
    let mut r = FilterSubscriptionRequest::new(CommitmentLevel::Confirmed);
    assert!(r.add_filter("a".to_string(), AccountFilter::match_all()));
    assert!(r.add_filter("b".to_string(), AccountFilter::match_all()));
    assert!(!r.add_filter("a".to_string(), AccountFilter::match_all()));
    assert_eq!(r.entries.len(), 2);
}

#[test]
fn no_token_sends_requests_undecorated() {
    let s = build_subscription(&None);
    assert!(s.x_token.is_none());
    assert_eq!(s.request.entries.len(), 1);
    assert_eq!(s.request.entries[0].name.as_str(), "slot_account_updates");
    assert_eq!(s.request.commitment, CommitmentLevel::Processed);
}

#[test]
fn valid_token_is_attached_unchanged() {
    let token = Some("sample-bearer-token".to_string());
    let s = build_subscription(&token);
    assert_eq!(s.x_token.as_deref(), Some("sample-bearer-token"));
}

#[test]
fn malformed_token_is_silently_left_off() {
    // A newline is never a legal metadata header byte.
    let token = Some("bad\ntoken".to_string());
    assert_eq!(token_header(&token), None);
    let s = build_subscription(&token);
    assert!(s.x_token.is_none());
    // Delete and other control characters are refused too; tabs pass.
    assert_eq!(token_header(&Some("del\u{7f}".to_string())), None);
    assert_eq!(token_header(&Some("tab\tok".to_string())), Some("tab\tok".to_string()));
}

#[test]
fn header_name_is_x_token() {
    assert_eq!(X_TOKEN_HEADER, "x-token");
}
