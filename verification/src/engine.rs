//! The engine facade: owns the bus, exposes publish/subscribe to the rest
//! of the application, and keeps the priority tag internal by handing
//! plain-event receivers to collaborators that should not see it.

use crate::channel::recv_event;
use crate::channel::try_recv_event;
use crate::events::spec_closed_failure;
use crate::events::EngineError;
use crate::events::EventBus;
use crate::events::GameEvent;
use crate::events::PrioritizedEvent;
use vstd::prelude::*;

verus! {

/// Lifecycle wrapper around one event bus. The `running` flag exists for
/// outside observability only; no scheduling decision reads it. Cloning
/// an engine clones a handle to the same bus.
#[derive(Clone)]
pub struct Engine {
    pub event_bus: EventBus,
    pub running: bool,
}

impl Engine {
    /// A stopped engine that owns a fresh bus.
    pub fn new() -> (r: Self)
        ensures
            !r.running,
    {
        Engine { event_bus: EventBus::new(), running: false }
    }

    /// Another handle to this engine's bus.
    pub fn event_bus(&self) -> (r: EventBus) {
        self.event_bus.clone()
    }

    /// Subscribes to `event_type` and returns a receiver that hands out
    /// bare events: the priority tag stays inside the scheduling core.
    pub fn subscribe(&self, event_type: &str) -> (r: PlainReceiver) {
        PlainReceiver { inner: self.event_bus.subscribe(event_type) }
    }

    /// Publishes `event` on `event_type` at the event's default priority.
    pub fn publish(&self, event_type: &str, event: GameEvent) -> (r: Result<(), EngineError>)
        ensures
            r matches Err(e) ==> spec_closed_failure(e),
    {
        self.event_bus.publish(event_type, event)
    }

    /// Brings the engine up; the same as [`Self::start`].
    pub fn run(&mut self) -> (r: Result<(), EngineError>)
        ensures
            final(self).running,
            final(self).event_bus == old(self).event_bus,
            r matches Err(e) ==> spec_closed_failure(e),
    {
        self.start()
    }

    /// Flags the engine running and publishes `Start` on the well-known
    /// `"engine"` topic at its default (`High`) priority.
    pub fn start(&mut self) -> (r: Result<(), EngineError>)
        ensures
            final(self).running,
            final(self).event_bus == old(self).event_bus,
            r matches Err(e) ==> spec_closed_failure(e),
    {
        self.running = true;
        self.event_bus.publish("engine", GameEvent::Start)
    }

    /// Flags the engine stopped and publishes `Stop` on the well-known
    /// `"engine"` topic at its default (`High`) priority.
    pub fn stop(&mut self) -> (r: Result<(), EngineError>)
        ensures
            !final(self).running,
            final(self).event_bus == old(self).event_bus,
            r matches Err(e) ==> spec_closed_failure(e),
    {
        self.running = false;
        self.event_bus.publish("engine", GameEvent::Stop)
    }
}

/// The forwarding step of the plain view: the same event, stripped of its
/// priority tag.
pub fn strip_priority(prioritized: PrioritizedEvent) -> (r: GameEvent)
    ensures
        r == prioritized.event,
{
    prioritized.event
}

/// The receiving half of a plain subscription: an adapter tied to the
/// subscription's own queue that hands out bare events in arrival order
/// and never filters one out.
pub struct PlainReceiver {
    pub inner: crossbeam_channel::Receiver<PrioritizedEvent>,
}

impl PlainReceiver {
    /// The next event, blocking while the queue is empty; `None` once the
    /// queue is closed and drained.
    pub fn recv(&self) -> (r: Option<GameEvent>) {
        match recv_event(&self.inner) {
            Some(prioritized) => Some(strip_priority(prioritized)),
            None => None,
        }
    }

    /// The next event, or `None` when the queue is momentarily empty.
    pub fn try_recv(&self) -> (r: Option<GameEvent>) {
        match try_recv_event(&self.inner) {
            Some(prioritized) => Some(strip_priority(prioritized)),
            None => None,
        }
    }
}

} // verus!
