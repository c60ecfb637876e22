//! Trusted boundary around the transport: crossbeam's bounded channels and
//! the mutex-protected topic registry. Everything here is shared, mutable
//! concurrent state, so no contract pins queue contents; the verified logic
//! treats every receive and every send outcome as possible.

use crate::events::PrioritizedEvent;
use std::collections::HashMap;
use std::sync::Arc;
use std::sync::Mutex;
use vstd::prelude::*;

verus! {

#[verifier::external_type_specification]
#[verifier::external_body]
#[verifier::reject_recursive_types(T)]
pub struct ExSender<T>(crossbeam_channel::Sender<T>);

#[verifier::external_type_specification]
#[verifier::external_body]
#[verifier::reject_recursive_types(T)]
pub struct ExReceiver<T>(crossbeam_channel::Receiver<T>);

/// The topic registry of one bus: topic name to the sending halves of every
/// current subscriber queue, behind a mutex so that any thread may subscribe
/// or publish. Cloning a handle shares the same registry.
#[verifier::external_body]
pub(crate) struct TopicRegistry {
    inner: Arc<Mutex<HashMap<String, Vec<crossbeam_channel::Sender<PrioritizedEvent>>>>>,
}

impl TopicRegistry {
    /// Relies on HashMap::new behind Arc and Mutex: a registry with no
    /// topics.
    #[verifier::external_body]
    pub(crate) fn new() -> TopicRegistry {
        TopicRegistry { inner: Arc::new(Mutex::new(HashMap::new())) }
    }
}

impl Clone for TopicRegistry {
    /// Relies on Arc::clone: the clone is another handle to the same
    /// registry, not a copy of it.
    #[verifier::external_body]
    fn clone(&self) -> TopicRegistry {
        TopicRegistry { inner: Arc::clone(&self.inner) }
    }
}

/// Registers a new subscriber queue of the given capacity under `topic` and
/// returns its receiving half. Relies on crossbeam_channel::bounded (which
/// panics only when the capacity is too large for its backing array, kept
/// out by the precondition) and on HashMap::entry under the registry lock.
#[verifier::external_body]
pub(crate) fn register_subscriber(reg: &TopicRegistry, topic: &str, capacity: usize) -> (r:
    crossbeam_channel::Receiver<PrioritizedEvent>)
    requires
        1 <= capacity <= 65536,
{
    let (sender, receiver) = crossbeam_channel::bounded(capacity);
    let mut senders = reg.inner.lock().unwrap_or_else(|e| e.into_inner());
    senders.entry(topic.to_string()).or_default().push(sender);
    receiver
}

/// A snapshot of the sending halves currently registered under `topic`, in
/// subscription order; empty when the topic has never been subscribed.
/// Relies on HashMap::get and Vec::clone under the registry lock; the lock
/// is released before the caller sends anything.
#[verifier::external_body]
pub(crate) fn topic_senders(reg: &TopicRegistry, topic: &str) -> (r: Vec<
    crossbeam_channel::Sender<PrioritizedEvent>,
>) {
    let senders = reg.inner.lock().unwrap_or_else(|e| e.into_inner());
    match senders.get(topic) {
        Some(v) => v.clone(),
        None => Vec::new(),
    }
}

/// Enqueues one prioritized event. Relies on crossbeam_channel::Sender::send:
/// it blocks while the queue is full and fails exactly when the receiving
/// half has been dropped. Returns whether the event reached the queue.
#[verifier::external_body]
pub(crate) fn send_event(
    sender: &crossbeam_channel::Sender<PrioritizedEvent>,
    event: PrioritizedEvent,
) -> (r: bool) {
    sender.send(event).is_ok()
}

/// Takes the next event from the queue, blocking while it is empty. Relies
/// on crossbeam_channel::Receiver::recv: `None` exactly when the queue is
/// empty and every sending half has been dropped.
#[verifier::external_body]
pub(crate) fn recv_event(receiver: &crossbeam_channel::Receiver<PrioritizedEvent>) -> (r: Option<
    PrioritizedEvent,
>) {
    receiver.recv().ok()
}

/// Takes the next event from the queue without blocking. Relies on
/// crossbeam_channel::Receiver::try_recv: `None` when the queue is
/// currently empty, whether or not senders remain.
#[verifier::external_body]
pub(crate) fn try_recv_event(receiver: &crossbeam_channel::Receiver<PrioritizedEvent>) -> (r: Option<
    PrioritizedEvent,
>) {
    receiver.try_recv().ok()
}

} // verus!
