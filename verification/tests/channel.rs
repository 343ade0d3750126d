use lobby_core::channel::{ChangeChannel, DebouncePolicy};

#[test]
fn burst_collapses_to_last_value() {
    let mut c: ChangeChannel<u32> = ChangeChannel::new(DebouncePolicy::OnlySendLast(5));
    let cursor = c.subscribe();
    // three publishes within one window
    c.publish(1, 100);
    c.publish(2, 102);
    c.publish(3, 104);
    // before the timer is due: nothing delivered
    c.deliver_due(104);
    assert!(c.current().is_none());
    assert!(!c.has_new(&cursor));
    // once the timer armed at 100 is due: exactly one delivery, the last value
    c.deliver_due(105);
    assert_eq!(c.current(), Some(&3));
    assert!(c.has_new(&cursor));
    let mut cursor = cursor;
    assert_eq!(c.read(&mut cursor), Some(&3));
    assert!(!c.has_new(&cursor));
}

#[test]
fn second_burst_delivers_again() {
    let mut c: ChangeChannel<u32> = ChangeChannel::new(DebouncePolicy::default());
    let mut cursor = c.subscribe();
    c.publish(7, 0);
    c.deliver_due(5);
    assert_eq!(c.read(&mut cursor), Some(&7));
    c.publish(8, 50);
    // the new timer runs from the first publish of the new burst
    c.deliver_due(54);
    assert!(!c.has_new(&cursor));
    c.deliver_due(55);
    assert!(c.has_new(&cursor));
    assert_eq!(c.read(&mut cursor), Some(&8));
}

#[test]
fn late_subscriber_sees_latest_only() {
    let mut c: ChangeChannel<u32> = ChangeChannel::new(DebouncePolicy::OnlySendLast(5));
    c.publish(1, 0);
    c.deliver_due(5);
    c.publish(2, 10);
    c.deliver_due(15);
    // a subscriber arriving now has no pending delivery, but can read the
    // latest value without blocking
    let cursor = c.subscribe();
    assert!(!c.has_new(&cursor));
    assert_eq!(c.current(), Some(&2));
}

#[test]
fn default_window_is_five_ms() {
    let mut c: ChangeChannel<u32> = ChangeChannel::new(DebouncePolicy::default());
    c.publish(1, 100);
    c.deliver_due(104);
    assert!(c.current().is_none());
    c.deliver_due(105);
    assert_eq!(c.current(), Some(&1));
}
