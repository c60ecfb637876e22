//! Event vocabulary of the runtime: the closed set of event variants, the
//! three-level priority classification, and the prioritized envelope that
//! travels on subscriber queues.

use crate::channel::register_subscriber;
use crate::channel::send_event;
use crate::channel::topic_senders;
use crate::channel::TopicRegistry;
use crate::map::MapPosition;
use vstd::prelude::*;

verus! {

/// Scheduling significance of an event. `High` events may interrupt the
/// scheduler (a `High` `Stop` short-circuits a tick); `Low` events are
/// diagnostics. Priority never reorders a queue: delivery is strict FIFO.
#[derive(Clone, Copy, Debug, PartialEq, Eq, Structural)]
pub enum Priority {
    High,
    Normal,
    Low,
}

impl Default for Priority {
    /// The neutral priority used when nothing more specific applies.
    fn default() -> (r: Self)
        ensures
            r == Priority::Normal,
    {
        Priority::Normal
    }
}

/// Severity of a `Log` event.
#[derive(Clone, Copy, Debug, PartialEq, Eq, Structural)]
pub enum LogLevel {
    Info,
    Warning,
    Error,
}

/// Everything the runtime reacts to. The variant set is closed and is
/// matched exhaustively wherever events are consumed.
///
/// Fractional payloads (`Update`'s elapsed seconds, `Stats`' sample value)
/// are carried as IEEE-754 bit patterns, so the envelope holds plain
/// integers; the core never interprets them, it only transports them.
#[derive(Clone, Debug, PartialEq)]
pub enum GameEvent {
    Start,
    Stop,
    Pause,
    Resume,
    Update { delta_bits: u32 },
    TurnStart { faction_id: u32 },
    TurnEnd { faction_id: u32 },
    UnitMove { unit_id: u32, position: MapPosition },
    Log { message: String, level: LogLevel },
    Stats { metric: String, value_bits: u64 },
}

/// The default priority of each event kind: lifecycle control signals are
/// `High`, simulation and domain notifications `Normal`, diagnostics `Low`.
pub open spec fn default_priority_of(e: GameEvent) -> Priority {
    match e {
        GameEvent::Start | GameEvent::Stop | GameEvent::Pause | GameEvent::Resume => Priority::High,
        GameEvent::Update { .. }
        | GameEvent::TurnStart { .. }
        | GameEvent::TurnEnd { .. }
        | GameEvent::UnitMove { .. } => Priority::Normal,
        GameEvent::Log { .. } | GameEvent::Stats { .. } => Priority::Low,
    }
}

/// The priority an event is published at: the explicit override when one is
/// given, else the event's default.
pub open spec fn resolved_priority(e: GameEvent, explicit: Option<Priority>) -> Priority {
    match explicit {
        Some(p) => p,
        None => default_priority_of(e),
    }
}

impl GameEvent {
    /// The default priority of this event kind.
    pub fn default_priority(&self) -> (r: Priority)
        ensures
            r == default_priority_of(*self),
    {
        match self {
            GameEvent::Start | GameEvent::Stop | GameEvent::Pause | GameEvent::Resume => {
                Priority::High
            },
            GameEvent::Update { .. }
            | GameEvent::TurnStart { .. }
            | GameEvent::TurnEnd { .. }
            | GameEvent::UnitMove { .. } => Priority::Normal,
            GameEvent::Log { .. } | GameEvent::Stats { .. } => Priority::Low,
        }
    }
}

/// The unit actually transported on subscriber queues: an event together
/// with the priority it was published at.
#[derive(Clone, Debug, PartialEq)]
pub struct PrioritizedEvent {
    pub priority: Priority,
    pub event: GameEvent,
}

/// Wraps an event for transport, resolving its priority: the explicit
/// override when one is given, else the event's default.
pub fn make_prioritized(event: GameEvent, priority: Option<Priority>) -> (r: PrioritizedEvent)
    ensures
        r.event == event,
        r.priority == resolved_priority(event, priority),
{
    let p = match priority {
        Some(p) => p,
        None => event.default_priority(),
    };
    PrioritizedEvent { priority: p, event }
}

/// What can go wrong in the runtime core. A dead subscriber is reported but
/// never fatal; an empty queue is the normal end of a non-blocking drain; a
/// rendering failure aborts the scheduler; a corrupt registry should be
/// impossible and is kept only as a defensive kind.
#[derive(Clone, Debug, PartialEq)]
pub enum EngineError {
    ChannelClosed { subscribers: Vec<usize> },
    ChannelEmpty,
    RenderFailure,
    InvalidTopicState,
}

/// Whether a sequence is strictly increasing.
pub open spec fn spec_strictly_increasing(s: Seq<usize>) -> bool {
    forall|j: int, k: int| 0 <= j < k < s.len() ==> s[j] < s[k]
}

/// A well-formed partial-failure report: at least one dead subscriber,
/// listed by queue position in increasing order.
pub open spec fn spec_closed_failure(e: EngineError) -> bool {
    match e {
        EngineError::ChannelClosed { subscribers } => {
            &&& subscribers@.len() > 0
            &&& spec_strictly_increasing(subscribers@)
        },
        _ => false,
    }
}

/// How many pending events one subscriber queue holds at most; a publisher
/// blocks while a queue is full.
pub const QUEUE_CAPACITY: usize = 100;

/// A multi-topic publish/subscribe bus. Each topic fans out to every
/// current subscriber through an independent bounded FIFO queue; a
/// subscriber added after a publish never sees that earlier event. Cloning
/// the bus clones a handle to the same topics.
#[derive(Clone)]
pub struct EventBus {
    registry: TopicRegistry,
}

impl EventBus {
    /// A bus with no topics and no subscribers.
    pub fn new() -> (r: Self) {
        EventBus { registry: TopicRegistry::new() }
    }

    /// Registers a new bounded subscriber queue under `event_type` and
    /// returns the half to drain it from, in FIFO order.
    pub fn subscribe(&self, event_type: &str) -> (r: crossbeam_channel::Receiver<
        PrioritizedEvent,
    >) {
        register_subscriber(&self.registry, event_type, QUEUE_CAPACITY)
    }

    /// Publishes `event` at its default priority; see
    /// [`Self::publish_with_priority`].
    pub fn publish(&self, event_type: &str, event: GameEvent) -> (r: Result<(), EngineError>)
        ensures
            r matches Err(e) ==> spec_closed_failure(e),
    {
        self.publish_with_priority(event_type, event, None)
    }

    /// Publishes `event` on `event_type` at the explicit priority when one
    /// is given, else at the event's default. The event is enqueued on the
    /// queue of every current subscriber of the topic; a topic without
    /// subscribers discards it silently. A dead subscriber (its receiving
    /// half dropped) never stops delivery to the others: the error, when
    /// any, lists exactly the dead queues by position.
    pub fn publish_with_priority(
        &self,
        event_type: &str,
        event: GameEvent,
        priority: Option<Priority>,
    ) -> (r: Result<(), EngineError>)
        ensures
            r matches Err(e) ==> spec_closed_failure(e),
    {
        let prioritized = make_prioritized(event, priority);
        let senders = topic_senders(&self.registry, event_type);
        let failed = fan_out(&senders, &prioritized);
        if failed.len() == 0 {
            Ok(())
        } else {
            Err(EngineError::ChannelClosed { subscribers: failed })
        }
    }

    /// Publishes an error report: a `Log` event at `Error` level, always at
    /// `High` priority, on the well-known `"error"` topic.
    pub fn publish_error(&self, message: String) -> (r: Result<(), EngineError>)
        ensures
            r matches Err(e) ==> spec_closed_failure(e),
    {
        self.publish_with_priority(
            "error",
            GameEvent::Log { message, level: LogLevel::Error },
            Some(Priority::High),
        )
    }
}

/// Enqueues one copy of `event` on every queue in `senders`, in order, and
/// reports the positions whose receiving half is gone. A failure at one
/// position never skips the following ones.
fn fan_out(
    senders: &Vec<crossbeam_channel::Sender<PrioritizedEvent>>,
    event: &PrioritizedEvent,
) -> (failed: Vec<usize>)
    ensures
        spec_strictly_increasing(failed@),
        forall|j: int| 0 <= j < failed@.len() ==> failed@[j] < senders@.len(),
{
    let mut failed: Vec<usize> = Vec::new();
    let mut i: usize = 0;
    while i < senders.len()
        invariant
            i <= senders@.len(),
            spec_strictly_increasing(failed@),
            forall|j: int| 0 <= j < failed@.len() ==> failed@[j] < i,
        decreases senders@.len() - i,
    {
        let delivered = send_event(&senders[i], event.clone());
        if !delivered {
            failed.push(i);
        }
        i = i + 1;
    }
    failed
}

} // verus!
