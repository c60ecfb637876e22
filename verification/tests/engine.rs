//! Tests of the engine facade: lifecycle events on the well-known topic
//! and the plain-event view that hides priorities.

use sl_gem::Engine;
use sl_gem::GameEvent;
use sl_gem::Priority;

#[test]
fn test_engine_start_publishes_start() {
    let mut engine = Engine::new();
    let bus = engine.event_bus();
    let receiver = bus.subscribe("engine");

    engine.start().unwrap();

    let received = receiver.try_recv().unwrap();
    assert_eq!(received.event, GameEvent::Start);
    assert_eq!(received.priority, Priority::High);
}

#[test]
fn test_engine_stop_publishes_stop() {
    let mut engine = Engine::new();
    let bus = engine.event_bus();
    let receiver = bus.subscribe("engine");

    engine.run().unwrap();
    engine.stop().unwrap();

    let first = receiver.try_recv().unwrap();
    assert_eq!(first.event, GameEvent::Start);
    let second = receiver.try_recv().unwrap();
    assert_eq!(second.event, GameEvent::Stop);
    assert_eq!(second.priority, Priority::High);
}

#[test]
fn test_plain_receiver_strips_priority_keeps_order() {
    let engine = Engine::new();
    let plain = engine.subscribe("system");

    engine
        .publish(
            "system",
            GameEvent::Update {
                delta_bits: 0.016f32.to_bits(),
            },
        )
        .unwrap();
    engine.publish("system", GameEvent::Stop).unwrap();
    engine
        .publish("system", GameEvent::TurnStart { faction_id: 2 })
        .unwrap();

    // Every event comes through, bare, in arrival order.
    assert_eq!(
        plain.try_recv(),
        Some(GameEvent::Update {
            delta_bits: 0.016f32.to_bits()
        })
    );
    assert_eq!(plain.try_recv(), Some(GameEvent::Stop));
    assert_eq!(plain.try_recv(), Some(GameEvent::TurnStart { faction_id: 2 }));
    assert_eq!(plain.try_recv(), None);
}

#[test]
fn test_cloned_engine_shares_bus() {
    let engine = Engine::new();
    let clone = engine.clone();
    let receiver = engine.subscribe("shared");

    clone
        .publish("shared", GameEvent::TurnEnd { faction_id: 1 })
        .unwrap();

    assert_eq!(
        receiver.recv(),
        Some(GameEvent::TurnEnd { faction_id: 1 })
    );
}
