use droplink::pending::{PendingDecisions, DECISION_TIMEOUT_SECS};

#[test]
fn decision_wait_is_ten_seconds() {
    assert_eq!(DECISION_TIMEOUT_SECS, 10);
}

#[test]
fn decision_is_delivered_once() {
    let mut pending = PendingDecisions::new();
    pending.register("t1".to_string(), 1);
    pending.register("t2".to_string(), 2);
    assert_eq!(pending.take("t1"), Some(1));
    assert_eq!(pending.take("t1"), None);
    assert_eq!(pending.take("t2"), Some(2));
    assert_eq!(pending.take("t3"), None);
}

#[test]
fn registering_an_id_again_replaces_its_channel() {
    let mut pending = PendingDecisions::new();
    pending.register("t".to_string(), "first");
    pending.register("u".to_string(), "other");
    pending.register("t".to_string(), "second");
    assert_eq!(pending.take("t"), Some("second"));
    assert_eq!(pending.take("t"), None);
    assert_eq!(pending.take("u"), Some("other"));
}
