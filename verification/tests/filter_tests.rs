use klog::filter::{FilterError, FilterSpec};
use klog::models::LogMessage;

fn msg(text: &str) -> LogMessage {
    LogMessage {
        pod_name: "pod".to_string(),
        container_name: "app".to_string(),
        message: text.to_string(),
    }
}

#[test]
fn no_patterns_keeps_everything() {
    let f = FilterSpec::new(None, None).ok().unwrap();
    assert!(f.keep(&msg("anything at all")));
    assert!(f.keep(&msg("")));
}

#[test]
fn exclude_discards_matching_lines() {
    let f = FilterSpec::new(None, Some("healthz".to_string())).ok().unwrap();
    assert!(!f.keep(&msg("GET /healthz 200")));
    assert!(f.keep(&msg("GET /api/users 200")));
}

#[test]
fn filter_keeps_only_matching_lines() {
    let f = FilterSpec::new(Some("error".to_string()), None).ok().unwrap();
    assert!(f.keep(&msg("error: boom")));
    assert!(!f.keep(&msg("all good")));
}

#[test]
fn exclude_wins_over_filter() {
    // The line matches both patterns; noise suppression wins.
    let f = FilterSpec::new(Some("error".to_string()), Some("boom".to_string())).ok().unwrap();
    assert!(!f.keep(&msg("error: boom")));
    assert!(f.keep(&msg("error: quiet")));
    assert!(!f.keep(&msg("no match here")));
}

#[test]
fn patterns_apply_to_text_only() {
    // The pattern matches the pod name but not the text: the message stays.
    let f = FilterSpec::new(None, Some("pod".to_string())).ok().unwrap();
    assert!(f.keep(&msg("a quiet line")));
}

#[test]
fn invalid_filter_pattern_is_fatal() {
    let r = FilterSpec::new(Some("(".to_string()), None);
    match r {
        Err(FilterError::InvalidFilter(cause)) => assert!(!cause.is_empty()),
        _ => panic!("an unclosed group must be rejected as a filter error"),
    }
}

#[test]
fn invalid_exclude_pattern_is_fatal() {
    let r = FilterSpec::new(None, Some("[".to_string()));
    match r {
        Err(FilterError::InvalidExclude(cause)) => assert!(!cause.is_empty()),
        _ => panic!("an unclosed class must be rejected as an exclude error"),
    }
}

#[test]
fn invalid_filter_is_reported_before_invalid_exclude() {
    let r = FilterSpec::new(Some("(".to_string()), Some("[".to_string()));
    assert!(matches!(r, Err(FilterError::InvalidFilter(_))));
}
