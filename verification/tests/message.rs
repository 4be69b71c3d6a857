use oxidebot_example::message::{text_only, EventKind, Message, Segment};
use oxidebot_example::filter::MessageEventFilter;

fn text(s: &str) -> Segment {
    Segment::Text { content: s.to_string() }
}

fn sample() -> Message {
    Message {
        id: "m1".to_string(),
        segments: vec![
            Segment::Other { position: 0 },
            text("hello "),
            text("/cmd/cmd rest"),
            text("/cmd again"),
        ],
    }
}

#[test]
fn starts_with_text_looks_at_every_text_segment() {
    let m = sample();
    assert!(m.starts_with_text("/cmd"));
    assert!(m.starts_with_text("hello"));
    assert!(!m.starts_with_text("rest"));
    let empty = Message { id: "e".to_string(), segments: vec![] };
    assert!(!empty.starts_with_text(""));
}

#[test]
fn trim_head_text_trims_only_the_first_match() {
    let m = sample();
    let out = m.trim_head_text("/cmd");
    assert_eq!(
        out,
        vec![
            Segment::Other { position: 0 },
            text("hello "),
            text(" rest"),
            text("/cmd again"),
        ]
    );
}

#[test]
fn trim_head_text_without_match_keeps_everything() {
    let m = sample();
    assert_eq!(m.trim_head_text("/none"), m.segments);
}

#[test]
fn raw_text_joins_text_segments() {
    let m = sample();
    assert_eq!(m.get_raw_text(), "hello /cmd/cmd rest/cmd again");
    let only_other = Message { id: "x".to_string(), segments: vec![Segment::Other { position: 3 }] };
    assert_eq!(only_other.get_raw_text(), "");
}

#[test]
fn text_only_builds_one_segment() {
    assert_eq!(text_only("hi".to_string()), vec![text("hi")]);
}

#[test]
fn filter_lets_only_messages_through() {
    let f = MessageEventFilter;
    assert!(f.filter(EventKind::Message));
    for kind in [
        EventKind::Notice,
        EventKind::Request,
        EventKind::Interaction,
        EventKind::Lifecycle,
        EventKind::Meta,
        EventKind::Any,
    ] {
        assert!(!f.filter(kind));
    }
    assert_eq!(f.get_priority(), 0);
}
