use signald_tui::bus::{Bus, BusEntry};

fn line(text: &str) -> BusEntry {
    BusEntry::Line(text.as_bytes().to_vec())
}

#[test]
fn subscriber_sees_each_publish_once() {
    let mut bus = Bus::new(4);
    let mut rx = bus.subscribe();
    bus.publish(line("a"));
    bus.publish(line("b"));
    assert_eq!(bus.try_recv(&mut rx), Some(&line("a")));
    assert_eq!(bus.try_recv(&mut rx), Some(&line("b")));
    assert_eq!(bus.try_recv(&mut rx), None);
    assert_eq!(bus.try_recv(&mut rx), None);
    bus.publish(line("c"));
    assert_eq!(bus.try_recv(&mut rx), Some(&line("c")));
    assert_eq!(bus.try_recv(&mut rx), None);
}

#[test]
fn every_subscriber_gets_its_own_copy() {
    let mut bus = Bus::new(4);
    let mut first = bus.subscribe();
    let mut second = bus.subscribe();
    bus.publish(line("a"));
    assert_eq!(bus.try_recv(&mut first), Some(&line("a")));
    assert_eq!(bus.try_recv(&mut first), None);
    assert_eq!(bus.try_recv(&mut second), Some(&line("a")));
    assert_eq!(bus.try_recv(&mut second), None);
}

#[test]
fn subscriber_does_not_see_earlier_publishes() {
    let mut bus = Bus::new(4);
    bus.publish(line("early"));
    let mut rx = bus.subscribe();
    assert_eq!(bus.try_recv(&mut rx), None);
    bus.publish(line("late"));
    assert_eq!(bus.try_recv(&mut rx), Some(&line("late")));
}

#[test]
fn overflow_drops_the_oldest_entry() {
    let mut bus = Bus::new(2);
    let mut slow = bus.subscribe();
    bus.publish(line("1"));
    bus.publish(line("2"));
    bus.publish(line("3"));
    assert_eq!(bus.published(), 3);
    assert_eq!(bus.try_recv(&mut slow), Some(&line("2")));
    assert_eq!(bus.try_recv(&mut slow), Some(&line("3")));
    assert_eq!(bus.try_recv(&mut slow), None);
}

#[test]
fn overflow_does_not_touch_a_subscriber_that_kept_up() {
    let mut bus = Bus::new(2);
    let mut rx = bus.subscribe();
    bus.publish(line("1"));
    assert_eq!(bus.try_recv(&mut rx), Some(&line("1")));
    bus.publish(line("2"));
    bus.publish(line("3"));
    assert_eq!(bus.try_recv(&mut rx), Some(&line("2")));
    assert_eq!(bus.try_recv(&mut rx), Some(&line("3")));
    assert_eq!(bus.try_recv(&mut rx), None);
}

#[test]
fn bus_without_room_retains_nothing() {
    let mut bus = Bus::new(0);
    let mut rx = bus.subscribe();
    bus.publish(line("lost"));
    assert_eq!(bus.published(), 1);
    assert_eq!(bus.capacity(), 0);
    assert_eq!(bus.try_recv(&mut rx), None);
}

#[test]
fn heartbeat_is_not_a_line() {
    let mut bus = Bus::new(3);
    let mut rx = bus.subscribe();
    bus.publish(BusEntry::Heartbeat);
    bus.publish(line("update"));
    assert_eq!(bus.try_recv(&mut rx), Some(&BusEntry::Heartbeat));
    assert_eq!(bus.try_recv(&mut rx), Some(&line("update")));
    assert_ne!(BusEntry::Heartbeat, line("update"));
}

#[test]
fn new_bus_is_empty() {
    let bus = Bus::new(100);
    assert_eq!(bus.capacity(), 100);
    assert_eq!(bus.published(), 0);
    let mut rx = bus.subscribe();
    assert_eq!(bus.try_recv(&mut rx), None);
}
