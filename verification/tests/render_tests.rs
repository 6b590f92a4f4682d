use klog::models::{LogMessage, PodOption};
use klog::render::{footer_line, line_prefix, prefix_color, PrefixColor};

const FOOTER: &str = " [s] Search History | [q] Quit ";

fn msg(pod: &str, container: &str, text: &str) -> LogMessage {
    LogMessage {
        pod_name: pod.to_string(),
        container_name: container.to_string(),
        message: text.to_string(),
    }
}

#[test]
fn footer_fills_a_wide_line_without_wrapping() {
    let cols: u16 = 80;
    let line = footer_line(cols);
    assert_eq!(line.chars().count(), 80);
    assert!(line.starts_with(FOOTER));
    assert!(line[FOOTER.len()..].chars().all(|c| c == ' '));
}

#[test]
fn footer_on_a_narrow_terminal_is_left_unpadded() {
    let text_len = FOOTER.chars().count();
    let line = footer_line(10);
    assert_eq!(line, FOOTER);
    let line = footer_line(text_len as u16);
    assert_eq!(line, FOOTER);
}

#[test]
fn footer_is_recomputed_for_each_width() {
    assert_eq!(footer_line(100).chars().count(), 100);
    assert_eq!(footer_line(40).chars().count(), 40);
}

#[test]
fn prefix_colors_cycle_by_pod_name_length() {
    assert_eq!(prefix_color("abcd"), PrefixColor::Cyan);
    assert_eq!(prefix_color("a"), PrefixColor::Green);
    assert_eq!(prefix_color("ab"), PrefixColor::Magenta);
    assert_eq!(prefix_color("abc"), PrefixColor::Yellow);
    // Equal names get equal colours.
    assert_eq!(prefix_color("web-1"), prefix_color("web-1"));
}

#[test]
fn line_prefix_tags_the_origin() {
    let m = msg("web-1", "nginx", "hello");
    assert_eq!(line_prefix(&m), "[web-1/nginx]");
}

#[test]
fn message_label_shows_origin_and_text() {
    let m = msg("web-1", "nginx", "error: boom");
    assert_eq!(m.label(), "[web-1/nginx] error: boom");
}

#[test]
fn pod_option_label_shows_name_and_namespace() {
    let p = PodOption {
        name: "web-1".to_string(),
        namespace: "prod".to_string(),
        containers: vec!["nginx".to_string()],
    };
    assert_eq!(p.label(), "web-1 (prod)");
}

#[test]
fn default_container_is_the_first_or_a_fallback() {
    let p = PodOption {
        name: "web-1".to_string(),
        namespace: "prod".to_string(),
        containers: vec!["nginx".to_string(), "sidecar".to_string()],
    };
    assert_eq!(p.default_container(), "nginx");
    let bare = PodOption {
        name: "web-2".to_string(),
        namespace: "prod".to_string(),
        containers: vec![],
    };
    assert_eq!(bare.default_container(), "default");
}

#[test]
fn duplicate_copies_every_field() {
    let m = msg("web-1", "nginx", "text");
    let d = m.duplicate();
    assert_eq!(d.pod_name, m.pod_name);
    assert_eq!(d.container_name, m.container_name);
    assert_eq!(d.message, m.message);
}
