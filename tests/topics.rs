use nt_gui::client::{ConnectError, EguiMessage, TopicUpdate};
use nt_gui::render::{apply_poll, FrameOutcome, Polled};
use nt_gui::topics::Topics;

fn update(name: &str, data: &str) -> TopicUpdate {
    TopicUpdate { topic_name: name.to_string(), data: data.to_string() }
}

fn value(t: &Topics, name: &str) -> Option<String> {
    t.get(&name.to_string()).cloned()
}

#[test]
fn same_update_twice_equals_once() {
    let mut once = Topics::new();
    once.apply(EguiMessage::Message(update("x", "1")));
    let mut twice = Topics::new();
    twice.apply(EguiMessage::Message(update("x", "1")));
    twice.apply(EguiMessage::Message(update("x", "1")));
    assert_eq!(twice.len(), 1);
    assert_eq!(once.len(), 1);
    assert_eq!(value(&twice, "x"), Some("1".to_string()));
    assert_eq!(value(&once, "x"), Some("1".to_string()));
}

#[test]
fn last_update_wins() {
    let mut t = Topics::new();
    t.apply(EguiMessage::Message(update("x", "1")));
    t.apply(EguiMessage::Message(update("x", "2")));
    assert_eq!(t.len(), 1);
    assert_eq!(value(&t, "x"), Some("2".to_string()));
}

#[test]
fn distinct_topics_in_either_order() {
    let mut ab = Topics::new();
    ab.apply(EguiMessage::Message(update("a", "1")));
    ab.apply(EguiMessage::Message(update("b", "2")));
    let mut ba = Topics::new();
    ba.apply(EguiMessage::Message(update("b", "2")));
    ba.apply(EguiMessage::Message(update("a", "1")));
    for t in [&ab, &ba] {
        assert_eq!(t.len(), 2);
        assert_eq!(value(t, "a"), Some("1".to_string()));
        assert_eq!(value(t, "b"), Some("2".to_string()));
    }
}

#[test]
fn empty_map_has_nothing() {
    let t = Topics::new();
    assert_eq!(t.len(), 0);
    assert_eq!(value(&t, "x"), None);
}

#[test]
fn lifecycle_events_leave_map_alone() {
    let mut t = Topics::new();
    t.apply(EguiMessage::Message(update("x", "1")));
    t.apply(EguiMessage::Disconnect);
    t.apply(EguiMessage::Reconnect);
    t.apply(EguiMessage::StartResult(Ok(())));
    t.apply(EguiMessage::StartResult(Err(ConnectError { reason: "refused".to_string() })));
    assert_eq!(t.len(), 1);
    assert_eq!(value(&t, "x"), Some("1".to_string()));
}

#[test]
fn entries_hold_each_topic_once() {
    let mut t = Topics::new();
    t.insert(update("/a", "true"));
    t.insert(update("/b", "3.5"));
    t.insert(update("/a", "false"));
    let mut seen: Vec<(String, String)> = (0..t.len())
        .map(|i| (t.entry(i).topic_name.clone(), t.entry(i).data.clone()))
        .collect();
    seen.sort();
    assert_eq!(
        seen,
        vec![
            ("/a".to_string(), "false".to_string()),
            ("/b".to_string(), "3.5".to_string())
        ]
    );
}

#[test]
fn empty_poll_changes_nothing() {
    let mut t = Topics::new();
    t.insert(update("x", "1"));
    assert_eq!(apply_poll(&mut t, Polled::Empty), FrameOutcome::Continue);
    assert_eq!(t.len(), 1);
    assert_eq!(value(&t, "x"), Some("1".to_string()));
}

#[test]
fn closed_queue_means_supervisor_gone() {
    let mut t = Topics::new();
    assert_eq!(apply_poll(&mut t, Polled::Disconnected), FrameOutcome::SupervisorGone);
    assert_eq!(t.len(), 0);
}

#[test]
fn received_update_is_folded() {
    let mut t = Topics::new();
    let r = apply_poll(&mut t, Polled::Received(EguiMessage::Message(update("x", "7"))));
    assert_eq!(r, FrameOutcome::Continue);
    assert_eq!(value(&t, "x"), Some("7".to_string()));
}
