use klog::history::HistoryBuffer;
use klog::models::LogMessage;

fn msg(pod: &str, container: &str, text: &str) -> LogMessage {
    LogMessage {
        pod_name: pod.to_string(),
        container_name: container.to_string(),
        message: text.to_string(),
    }
}

fn texts(v: &[LogMessage]) -> Vec<String> {
    v.iter().map(|m| m.message.clone()).collect()
}

#[test]
fn eviction_keeps_most_recent_oldest_first() {
    // History capacity 3; a, b, c, d appended in order leaves b, c, d.
    let mut h = HistoryBuffer::new(3);
    for t in ["a", "b", "c", "d"] {
        h.append(msg("p", "c", t));
    }
    assert_eq!(h.len(), 3);
    let all = h.search("");
    assert_eq!(texts(&all), vec!["b".to_string(), "c".to_string(), "d".to_string()]);
}

#[test]
fn eviction_over_long_run_retains_window() {
    let mut h = HistoryBuffer::new(5);
    for i in 0..37 {
        h.append(msg("p", "c", &format!("line {}", i)));
    }
    assert_eq!(h.len(), 5);
    let all = h.search("");
    let expect: Vec<String> = (32..37).map(|i| format!("line {}", i)).collect();
    assert_eq!(texts(&all), expect);
}

#[test]
fn search_is_case_insensitive_substring() {
    let mut h = HistoryBuffer::new(10);
    h.append(msg("p", "c", "Connection READY"));
    h.append(msg("p", "c", "error: boom"));
    h.append(msg("p", "c", "shutting down"));
    let found = h.search("ready");
    assert_eq!(texts(&found), vec!["Connection READY".to_string()]);
    let found = h.search("ERROR");
    assert_eq!(texts(&found), vec!["error: boom".to_string()]);
}

#[test]
fn search_empty_query_returns_full_history_in_order() {
    let mut h = HistoryBuffer::new(10);
    h.append(msg("p", "c", "one"));
    h.append(msg("q", "c", "two"));
    h.append(msg("p", "c", "three"));
    let found = h.search("");
    assert_eq!(
        texts(&found),
        vec!["one".to_string(), "two".to_string(), "three".to_string()]
    );
    assert_eq!(found[1].pod_name, "q");
}

#[test]
fn search_without_match_is_empty() {
    let mut h = HistoryBuffer::new(4);
    h.append(msg("p", "c", "alpha"));
    h.append(msg("p", "c", "beta"));
    let found = h.search("gamma");
    assert!(found.is_empty());
}

#[test]
fn search_preserves_chronological_order() {
    let mut h = HistoryBuffer::new(10);
    h.append(msg("p", "c", "err 1"));
    h.append(msg("p", "c", "fine"));
    h.append(msg("p", "c", "err 2"));
    h.append(msg("p", "c", "also fine"));
    h.append(msg("p", "c", "err 3"));
    let found = h.search("err");
    assert_eq!(
        texts(&found),
        vec!["err 1".to_string(), "err 2".to_string(), "err 3".to_string()]
    );
}

#[test]
fn search_does_not_mutate_the_buffer() {
    let mut h = HistoryBuffer::new(3);
    h.append(msg("p", "c", "a"));
    h.append(msg("p", "c", "b"));
    let _ = h.search("a");
    let _ = h.search("");
    assert_eq!(h.len(), 2);
    assert_eq!(texts(&h.search("")), vec!["a".to_string(), "b".to_string()]);
}
