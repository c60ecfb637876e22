//! Tests of the event bus: subscription, publishing, priority resolution,
//! ordering, fan-out and subscriber isolation.

use sl_gem::EngineError;
use sl_gem::EventBus;
use sl_gem::GameEvent;
use sl_gem::LogLevel;
use sl_gem::Priority;

#[test]
fn test_subscribe_and_publish() {
    let event_bus = EventBus::new();
    let receiver = event_bus.subscribe("test");

    event_bus.publish("test", GameEvent::Start).unwrap();

    if let Ok(received_event) = receiver.try_recv() {
        match received_event.event {
            GameEvent::Start => {
                assert_eq!(received_event.priority, Priority::High);
            }
            _ => panic!("Unexpected event received"),
        }
    } else {
        panic!("No event received");
    }
}

#[test]
fn test_publish_with_priority() {
    let event_bus = EventBus::new();
    let receiver = event_bus.subscribe("test");

    event_bus
        .publish_with_priority(
            "test",
            GameEvent::Update {
                delta_bits: 0.016f32.to_bits(),
            },
            Some(Priority::High),
        )
        .unwrap();

    if let Ok(received_event) = receiver.try_recv() {
        assert_eq!(received_event.priority, Priority::High);
        match received_event.event {
            GameEvent::Update { delta_bits } => {
                assert_eq!(f32::from_bits(delta_bits), 0.016);
            }
            _ => panic!("Unexpected event received"),
        }
    } else {
        panic!("No event received");
    }
}

#[test]
fn test_error_event() {
    let event_bus = EventBus::new();
    let receiver = event_bus.subscribe("error");

    event_bus.publish_error("Test error".to_string()).unwrap();

    if let Ok(received_event) = receiver.try_recv() {
        assert_eq!(received_event.priority, Priority::High);
        match received_event.event {
            GameEvent::Log { message, level } => {
                assert_eq!(message, "Test error");
                assert_eq!(level, LogLevel::Error);
            }
            _ => panic!("Unexpected event received"),
        }
    } else {
        panic!("No event received");
    }
}

#[test]
fn test_single_subscriber_fifo_order() {
    let event_bus = EventBus::new();
    let receiver = event_bus.subscribe("t");

    for i in 0..5u32 {
        event_bus
            .publish("t", GameEvent::TurnStart { faction_id: i })
            .unwrap();
    }

    for i in 0..5u32 {
        let received = receiver.try_recv().unwrap();
        match received.event {
            GameEvent::TurnStart { faction_id } => assert_eq!(faction_id, i),
            _ => panic!("Unexpected event received"),
        }
    }
    assert!(receiver.try_recv().is_err());
}

#[test]
fn test_fan_out_reaches_every_subscriber() {
    let event_bus = EventBus::new();
    let a = event_bus.subscribe("t");
    let b = event_bus.subscribe("t");
    let c = event_bus.subscribe("t");

    event_bus
        .publish("t", GameEvent::TurnEnd { faction_id: 7 })
        .unwrap();

    for receiver in [&a, &b, &c] {
        let received = received_or_panic(receiver);
        assert_eq!(received.priority, Priority::Normal);
        assert_eq!(received.event, GameEvent::TurnEnd { faction_id: 7 });
        assert!(receiver.try_recv().is_err());
    }
}

fn received_or_panic(
    receiver: &crossbeam_channel::Receiver<sl_gem::PrioritizedEvent>,
) -> sl_gem::PrioritizedEvent {
    receiver.try_recv().expect("subscriber missed the event")
}

#[test]
fn test_closed_subscriber_is_isolated() {
    let event_bus = EventBus::new();
    let a = event_bus.subscribe("shared");
    let b = event_bus.subscribe("shared");
    drop(a);

    let result = event_bus.publish("shared", GameEvent::Pause);
    match result {
        Err(EngineError::ChannelClosed { subscribers }) => {
            assert_eq!(subscribers, vec![0]);
        }
        other => panic!("expected a partial failure naming subscriber 0, got {:?}", other),
    }

    let received = b.try_recv().unwrap();
    assert_eq!(received.event, GameEvent::Pause);
    assert_eq!(received.priority, Priority::High);
}

#[test]
fn test_publish_without_subscribers_is_silent() {
    let event_bus = EventBus::new();
    assert!(event_bus.publish("nobody", GameEvent::Resume).is_ok());
}

#[test]
fn test_no_replay_for_late_subscriber() {
    let event_bus = EventBus::new();
    let early = event_bus.subscribe("t");
    event_bus.publish("t", GameEvent::Start).unwrap();

    let late = event_bus.subscribe("t");
    assert!(late.try_recv().is_err());
    assert!(early.try_recv().is_ok());
}

#[test]
fn test_update_defaults_to_normal_priority() {
    let event_bus = EventBus::new();
    let receiver = event_bus.subscribe("t");

    event_bus
        .publish(
            "t",
            GameEvent::Update {
                delta_bits: 0.016f32.to_bits(),
            },
        )
        .unwrap();

    let received = receiver.try_recv().unwrap();
    assert_eq!(received.priority, Priority::Normal);
    match received.event {
        GameEvent::Update { delta_bits } => assert_eq!(f32::from_bits(delta_bits), 0.016),
        _ => panic!("Unexpected event received"),
    }
}

#[test]
fn test_stop_defaults_to_high_priority() {
    let event_bus = EventBus::new();
    let receiver = event_bus.subscribe("t");

    event_bus.publish("t", GameEvent::Stop).unwrap();

    let received = receiver.try_recv().unwrap();
    assert_eq!(received.priority, Priority::High);
    assert_eq!(received.event, GameEvent::Stop);
}

#[test]
fn test_stats_and_log_default_to_low_priority() {
    let event_bus = EventBus::new();
    let receiver = event_bus.subscribe("t");

    event_bus
        .publish(
            "t",
            GameEvent::Stats {
                metric: "fps".to_string(),
                value_bits: 59.9f64.to_bits(),
            },
        )
        .unwrap();
    event_bus
        .publish(
            "t",
            GameEvent::Log {
                message: "hello".to_string(),
                level: LogLevel::Info,
            },
        )
        .unwrap();

    let first = receiver.try_recv().unwrap();
    assert_eq!(first.priority, Priority::Low);
    match first.event {
        GameEvent::Stats { metric, value_bits } => {
            assert_eq!(metric, "fps");
            assert_eq!(f64::from_bits(value_bits), 59.9);
        }
        _ => panic!("Unexpected event received"),
    }
    let second = receiver.try_recv().unwrap();
    assert_eq!(second.priority, Priority::Low);
}
