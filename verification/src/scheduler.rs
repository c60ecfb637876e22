//! The fixed-timestep scheduler: it drains one subscription's queue,
//! converts wall-clock time into a bounded number of fixed-size simulation
//! steps, and stops the moment a high-priority `Stop` arrives.

use crate::channel::recv_event;
use crate::channel::try_recv_event;
use crate::clock::instant_now;
use crate::clock::nanos_between;
use crate::events::EngineError;
use crate::events::GameEvent;
use crate::events::PrioritizedEvent;
use crate::events::Priority;
use vstd::arithmetic::div_mod::lemma_div_is_ordered;
use vstd::arithmetic::div_mod::lemma_fundamental_div_mod_converse;
use vstd::prelude::*;

verus! {

pub const NANOS_PER_SEC: u64 = 1_000_000_000;

/// Rates above one tick per nanosecond have no representable interval.
pub const MAX_RATE: u32 = 1_000_000_000;

/// The accumulator never needs to exceed this; staying below it keeps one
/// more frame's clamped contribution from overflowing.
pub const ACC_LIMIT: u64 = u64::MAX - NANOS_PER_SEC;

/// How many events one call is prepared to take from the queue. The queues
/// are bounded and draining outruns any producer, so the bound is never
/// reached; it exists so that every loop in the scheduler has a measure.
pub const EVENT_BUDGET: u64 = u64::MAX;

/// Configuration of the scheduler: the target frame rate and the ceiling
/// on catch-up updates, both in ticks per second.
#[derive(Clone, Debug)]
pub struct LoopConfig {
    pub target_fps: u32,
    pub max_updates: u32,
}

impl LoopConfig {
    /// Both rates must be positive, and no finer than one tick per
    /// nanosecond.
    pub open spec fn wf(self) -> bool {
        &&& 1 <= self.target_fps <= MAX_RATE
        &&& 1 <= self.max_updates <= MAX_RATE
    }
}

impl Default for LoopConfig {
    /// Sixty frames and at most sixty catch-up updates per second.
    fn default() -> (r: Self)
        ensures
            r == (LoopConfig { target_fps: 60, max_updates: 60 }),
            r.wf(),
    {
        LoopConfig { target_fps: 60, max_updates: 60 }
    }
}

/// Nanoseconds of one interval at `rate` ticks per second, truncated.
pub open spec fn spec_interval_nanos(rate: u32) -> u64 {
    (NANOS_PER_SEC as int / rate as int) as u64
}

/// Nanoseconds of one interval at `rate` ticks per second.
pub fn interval_nanos(rate: u32) -> (r: u64)
    requires
        1 <= rate,
    ensures
        r == spec_interval_nanos(rate),
        r <= NANOS_PER_SEC,
        rate <= MAX_RATE ==> 1 <= r,
{
    proof {
        if rate <= MAX_RATE {
            vstd::arithmetic::div_mod::lemma_div_non_zero(NANOS_PER_SEC as int, rate as int);
        }
    }
    NANOS_PER_SEC / (rate as u64)
}

/// What one frame of measured wall-clock time adds to the accumulator: the
/// frame time, clamped to one interval at the `max_updates` rate. The
/// clamp is the spiral-of-death guard: however long a stall, a single
/// frame injects at most this much simulated time.
pub open spec fn spec_gain(frame_time: u64, max_updates: u32) -> u64 {
    let clamp = spec_interval_nanos(max_updates);
    if frame_time < clamp {
        frame_time
    } else {
        clamp
    }
}

/// Saturating addition within `u64`.
pub open spec fn sat_add64(a: int, b: int) -> int {
    if a + b <= u64::MAX {
        a + b
    } else {
        u64::MAX as int
    }
}

fn sat_inc64(a: u64) -> (r: u64)
    ensures
        r == sat_add64(a as int, 1),
{
    if a < u64::MAX {
        a + 1
    } else {
        a
    }
}

/// The sole priority-sensitive condition of the scheduler: a `Stop` event
/// carried at `High` priority ends the run immediately.
pub open spec fn spec_is_high_stop(ev: PrioritizedEvent) -> bool {
    &&& ev.priority == Priority::High
    &&& ev.event is Stop
}

/// Whether `ev` is a high-priority `Stop`; see [`spec_is_high_stop`].
pub fn is_high_stop(ev: &PrioritizedEvent) -> (r: bool)
    ensures
        r == spec_is_high_stop(*ev),
{
    ev.priority == Priority::High && matches!(ev.event, GameEvent::Stop)
}

/// However long the wall-clock stall, the updates owed after one frame are
/// no more than what a full clamp's worth of gain owes: the spiral-of-death
/// guard stated over any accumulator state.
pub proof fn lemma_burst_bounded(acc: int, frame_time: u64, max_updates: u32, fd: int)
    requires
        0 <= acc,
        1 <= fd,
    ensures
        (acc + spec_gain(frame_time, max_updates)) / fd <= (acc + spec_interval_nanos(
            max_updates,
        )) / fd,
{
    lemma_div_is_ordered(
        acc + spec_gain(frame_time, max_updates),
        acc + spec_interval_nanos(max_updates),
        fd,
    );
}

/// Two stalled frames owe the same work: once the frame time reaches the
/// clamp, its exact length no longer matters.
pub proof fn lemma_stall_saturates(ft1: u64, ft2: u64, max_updates: u32)
    requires
        spec_interval_nanos(max_updates) <= ft1,
        spec_interval_nanos(max_updates) <= ft2,
    ensures
        spec_gain(ft1, max_updates) == spec_gain(ft2, max_updates),
{
}

/// The fixed-timestep scheduler. It owns the receiving half of one
/// subscription; all other state is plain numbers: the accounting is
/// nanoseconds held in `u64`, and the three counters record how often the
/// update and render hooks ran and how many events were dispatched.
pub struct GameLoop {
    pub config: LoopConfig,
    pub event_receiver: crossbeam_channel::Receiver<PrioritizedEvent>,
    pub last_update: std::time::Instant,
    pub accumulated_time: u64,
    pub frame_duration: u64,
    pub updates_run: u64,
    pub frames_rendered: u64,
    pub events_handled: u64,
}

impl GameLoop {
    /// A well-formed scheduler: a valid configuration, the frame duration
    /// derived from it, and an accumulator that one more frame cannot
    /// overflow.
    pub open spec fn wf(self) -> bool {
        &&& self.config.wf()
        &&& self.frame_duration == spec_interval_nanos(self.config.target_fps)
        &&& self.accumulated_time <= ACC_LIMIT
    }

    /// A scheduler that reads events from `event_receiver`, with an empty
    /// accumulator and zeroed counters.
    pub fn new(config: LoopConfig, event_receiver: crossbeam_channel::Receiver<PrioritizedEvent>)
        -> (r: GameLoop)
        requires
            config.wf(),
        ensures
            r.wf(),
            r.config == config,
            r.event_receiver == event_receiver,
            r.accumulated_time == 0,
            r.frame_duration == spec_interval_nanos(config.target_fps),
            r.updates_run == 0,
            r.frames_rendered == 0,
            r.events_handled == 0,
    {
        let frame_duration = interval_nanos(config.target_fps);
        GameLoop {
            config,
            event_receiver,
            last_update: instant_now(),
            accumulated_time: 0,
            frame_duration,
            updates_run: 0,
            frames_rendered: 0,
            events_handled: 0,
        }
    }

    /// Runs the scheduler: block for the next event; a high-priority
    /// `Stop` ends the run at once, anything else triggers one frame.  A
    /// closed queue, and a high-priority `Stop` drained mid-frame, are the
    /// graceful ends of the run; only a frame failure would surface as an
    /// error, and this core's frames cannot fail.
    #[verifier::loop_isolation(false)]
    pub fn run(&mut self) -> (r: Result<(), EngineError>)
        requires
            old(self).wf(),
        ensures
            r is Ok,
            final(self).config == old(self).config,
            final(self).frame_duration == old(self).frame_duration,
    {
        let mut budget: u64 = EVENT_BUDGET;
        while budget > 0
            invariant
                self.wf(),
                self.config == old(self).config,
                self.frame_duration == old(self).frame_duration,
            decreases budget,
        {
            match recv_event(&self.event_receiver) {
                None => {
                    return Ok(());
                },
                Some(ev) => {
                    if is_high_stop(&ev) {
                        return Ok(());
                    }
                    match self.process_frame() {
                        Ok(stop) => {
                            if stop {
                                return Ok(());
                            }
                        },
                        Err(e) => {
                            return Err(e);
                        },
                    }
                },
            }
            budget = budget - 1;
        }
        Ok(())
    }

    /// One frame: measure the wall-clock time since the previous frame and
    /// feed it to the accumulator; see [`Self::apply_frame_time`].
    fn process_frame(&mut self) -> (r: Result<bool, EngineError>)
        requires
            old(self).wf(),
        ensures
            r is Ok,
            final(self).config == old(self).config,
            final(self).frame_duration == old(self).frame_duration,
            r matches Ok(stop) ==> (!stop ==> final(self).wf()),
    {
        let now = instant_now();
        let frame_time = nanos_between(&self.last_update, &now);
        self.last_update = now;
        self.apply_frame_time(frame_time)
    }

    /// The timing core of one frame. The clamped frame time joins the
    /// accumulator, and one update runs per whole frame duration held in
    /// it, while the remainder stays in the accumulator: wall-clock
    /// variance never changes the size of a simulation step, only how many
    /// steps run. Draining the queue during an update may find a
    /// high-priority `Stop`; the frame then finishes early, renders, and
    /// reports `Ok(true)` so the caller ends the run. Frames themselves
    /// cannot fail here, so the result is always `Ok`.
    #[verifier::loop_isolation(false)]
    pub fn apply_frame_time(&mut self, frame_time: u64) -> (r: Result<bool, EngineError>)
        requires
            old(self).wf(),
        ensures
            r is Ok,
            final(self).config == old(self).config,
            final(self).frame_duration == old(self).frame_duration,
            final(self).last_update == old(self).last_update,
            final(self).event_receiver == old(self).event_receiver,
            final(self).events_handled >= old(self).events_handled,
            final(self).frames_rendered == sat_add64(old(self).frames_rendered as int, 1),
            r matches Ok(stop) ==> ({
                let total = old(self).accumulated_time + spec_gain(
                    frame_time,
                    old(self).config.max_updates,
                );
                let due = total / (old(self).frame_duration as int);
                exists|k: int|
                    {
                        &&& #[trigger] (k * old(self).frame_duration) >= 0
                        &&& 0 <= k <= due
                        &&& final(self).accumulated_time == total - k * old(self).frame_duration
                        &&& final(self).updates_run == sat_add64(old(self).updates_run as int, k)
                        &&& (!stop ==> k == due)
                        &&& (stop ==> k >= 1)
                    }
            }),
            r matches Ok(stop) ==> (!stop ==> final(self).wf() && final(self).accumulated_time
                < final(self).frame_duration),
    {
        proof {
            vstd::arithmetic::div_mod::lemma_div_non_zero(
                NANOS_PER_SEC as int,
                self.config.target_fps as int,
            );
        }
        let clamp = interval_nanos(self.config.max_updates);
        let gain = if frame_time < clamp {
            frame_time
        } else {
            clamp
        };
        self.accumulated_time = self.accumulated_time + gain;
        let ghost total = self.accumulated_time as int;
        let ghost fd = self.frame_duration as int;
        let mut stop = false;
        let ghost mut k: int = 0;
        while self.accumulated_time >= self.frame_duration && !stop
            invariant
                self.config == old(self).config,
                self.frame_duration == old(self).frame_duration,
                self.last_update == old(self).last_update,
                self.event_receiver == old(self).event_receiver,
                self.events_handled >= old(self).events_handled,
                self.frames_rendered == old(self).frames_rendered,
                0 <= k,
                k * fd >= 0,
                self.accumulated_time == total - k * fd,
                self.updates_run == sat_add64(old(self).updates_run as int, k),
                stop ==> k >= 1,
            decreases self.accumulated_time,
        {
            let found_stop = self.update();
            if found_stop {
                stop = true;
            }
            self.updates_run = sat_inc64(self.updates_run);
            proof {
                assert((k + 1) * fd == k * fd + fd) by (nonlinear_arith);
                k = k + 1;
            }
            self.accumulated_time = self.accumulated_time - self.frame_duration;
        }
        proof {
            if !stop {
                lemma_fundamental_div_mod_converse(total, fd, k, self.accumulated_time as int);
            } else {
                lemma_div_is_ordered(k * fd, total, fd);
                vstd::arithmetic::div_mod::lemma_div_multiples_vanish(k, fd);
            }
        }
        match self.render() {
            Ok(()) => Ok(stop),
            Err(e) => Err(e),
        }
    }

    /// Drains pending events without blocking, dispatching each in arrival
    /// order, until the queue is momentarily empty or a high-priority
    /// `Stop` appears; the `Stop` ends the drain at once, leaves later
    /// events queued, and is reported as `true`. Only the dispatch counter
    /// changes; the drain never touches the time accounting.
    #[verifier::loop_isolation(false)]
    fn update(&mut self) -> (stop: bool)
        ensures
            *final(self) == (GameLoop { events_handled: final(self).events_handled, ..*old(self) }),
            final(self).events_handled >= old(self).events_handled,
    {
        let mut budget: u64 = EVENT_BUDGET;
        while budget > 0
            invariant
                *self == (GameLoop { events_handled: self.events_handled, ..*old(self) }),
                self.events_handled >= old(self).events_handled,
            decreases budget,
        {
            match try_recv_event(&self.event_receiver) {
                None => {
                    return false;
                },
                Some(ev) => {
                    if is_high_stop(&ev) {
                        return true;
                    }
                    self.dispatch(ev);
                },
            }
            budget = budget - 1;
        }
        false
    }

    /// Hands one drained event to its destination. The core interprets no
    /// payloads: every kind, control or domain or diagnostic, is counted
    /// and passed over to whatever sink the surrounding application wires
    /// up on its own subscriptions.
    fn dispatch(&mut self, ev: PrioritizedEvent)
        ensures
            *final(self) == (GameLoop {
                events_handled: sat_add64(old(self).events_handled as int, 1) as u64,
                ..*old(self)
            }),
    {
        match ev.event {
            GameEvent::Start
            | GameEvent::Stop
            | GameEvent::Pause
            | GameEvent::Resume
            | GameEvent::Update { .. }
            | GameEvent::TurnStart { .. }
            | GameEvent::TurnEnd { .. }
            | GameEvent::UnitMove { .. }
            | GameEvent::Log { .. }
            | GameEvent::Stats { .. } => {
                self.events_handled = sat_inc64(self.events_handled);
            },
        }
    }

    /// The once-per-frame hook for the rendering collaborator. Rendering
    /// is outside this core; here the frame is recorded, and a failure
    /// would abort the run as `RenderFailure`.
    fn render(&mut self) -> (r: Result<(), EngineError>)
        ensures
            r is Ok,
            *final(self) == (GameLoop {
                frames_rendered: sat_add64(old(self).frames_rendered as int, 1) as u64,
                ..*old(self)
            }),
    {
        self.frames_rendered = sat_inc64(self.frames_rendered);
        Ok(())
    }
}

} // verus!
