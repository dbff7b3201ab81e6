use lekiwi::bus::{Bus, Delivery, Subscription, Topic, CHANNEL_SIZE};
use lekiwi::messages::{EstopCommand, VelocityCommand};

fn drain(topic: &Topic<u32>, subscription: &mut Subscription) -> Vec<u32> {
    let mut got = Vec::new();
    loop {
        match topic.recv(subscription) {
            Delivery::Message(m) => got.push(*m),
            Delivery::Lagged(_) => panic!("unexpected lag"),
            Delivery::Empty => return got,
        }
    }
}

#[test]
fn messages_arrive_in_order() {
    let mut topic: Topic<u32> = Topic::new(4);
    let mut sub = topic.subscribe();
    topic.publish(10);
    topic.publish(11);
    topic.publish(12);
    assert_eq!(drain(&topic, &mut sub), vec![10, 11, 12]);
    assert!(matches!(topic.recv(&mut sub), Delivery::Empty));
    topic.publish(13);
    assert_eq!(drain(&topic, &mut sub), vec![13]);
}

#[test]
fn a_new_subscriber_sees_no_history() {
    let mut topic: Topic<u32> = Topic::new(4);
    topic.publish(1);
    topic.publish(2);
    let mut sub = topic.subscribe();
    assert_eq!(sub.next_seq, 2);
    assert!(matches!(topic.recv(&mut sub), Delivery::Empty));
    topic.publish(3);
    assert_eq!(drain(&topic, &mut sub), vec![3]);
}

#[test]
fn publishing_without_subscribers_is_fine() {
    let mut topic: Topic<u32> = Topic::new(2);
    for i in 0..10 {
        topic.publish(i);
    }
    assert_eq!(topic.published(), 10);
}

#[test]
fn a_full_topic_drops_the_oldest_message() {
    let mut topic: Topic<u32> = Topic::new(3);
    let mut sub = topic.subscribe();
    for i in 0..4 {
        topic.publish(i);
    }
    match topic.recv(&mut sub) {
        Delivery::Lagged(missed) => assert_eq!(missed, 1),
        other => panic!("expected a lag notice, got {:?}", other),
    }
    assert_eq!(drain(&topic, &mut sub), vec![1, 2, 3]);
}

#[test]
fn a_subscriber_far_behind_is_told_how_much_it_missed() {
    let mut topic: Topic<u32> = Topic::new(3);
    let mut sub = topic.subscribe();
    topic.publish(100);
    assert_eq!(drain(&topic, &mut sub), vec![100]);
    for i in 0..10 {
        topic.publish(i);
    }
    match topic.recv(&mut sub) {
        Delivery::Lagged(missed) => assert_eq!(missed, 7),
        other => panic!("expected a lag notice, got {:?}", other),
    }
    assert_eq!(sub.next_seq, 8);
    assert_eq!(drain(&topic, &mut sub), vec![7, 8, 9]);
}

#[test]
fn subscribers_read_at_their_own_pace() {
    let mut topic: Topic<u32> = Topic::new(8);
    let mut fast = topic.subscribe();
    let mut slow = topic.subscribe();
    topic.publish(1);
    assert_eq!(drain(&topic, &mut fast), vec![1]);
    topic.publish(2);
    assert_eq!(drain(&topic, &mut fast), vec![2]);
    assert_eq!(drain(&topic, &mut slow), vec![1, 2]);
}

#[test]
fn a_topic_of_one_keeps_the_latest() {
    let mut topic: Topic<u32> = Topic::new(1);
    let mut sub = topic.subscribe();
    topic.publish(1);
    topic.publish(2);
    assert!(matches!(topic.recv(&mut sub), Delivery::Lagged(1)));
    assert_eq!(drain(&topic, &mut sub), vec![2]);
}

#[test]
fn a_cursor_ahead_of_the_topic_finds_nothing() {
    let mut topic: Topic<u32> = Topic::new(2);
    topic.publish(1);
    let mut sub = Subscription { next_seq: 50 };
    assert!(matches!(topic.recv(&mut sub), Delivery::Empty));
    assert_eq!(sub.next_seq, 50);
}

#[test]
fn the_bus_starts_empty_with_room_for_sixty_four() {
    assert_eq!(CHANNEL_SIZE, 64);
    let mut bus = Bus::new();
    assert_eq!(bus.cmd_in.published(), 0);
    assert_eq!(bus.camera.published(), 0);
    let mut sub = bus.cmd_in.subscribe();
    for i in 0..65u64 {
        bus.cmd_in.publish(VelocityCommand::zero("test", i));
    }
    assert!(matches!(bus.cmd_in.recv(&mut sub), Delivery::Lagged(1)));
    match bus.cmd_in.recv(&mut sub) {
        Delivery::Message(cmd) => assert_eq!(cmd.timestamp_ns, 1),
        other => panic!("expected a message, got {:?}", other),
    }
    let mut estop = bus.cmd_estop.subscribe();
    bus.cmd_estop.publish(EstopCommand {
        timestamp_ns: 1,
        enabled: true,
        reason: "button".to_string(),
        source: "panel".to_string(),
    });
    match bus.cmd_estop.recv(&mut estop) {
        Delivery::Message(cmd) => assert!(cmd.enabled),
        other => panic!("expected a message, got {:?}", other),
    }
    assert_eq!(bus.cmd_out.published(), 0);
}
