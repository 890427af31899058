//! The lock-free hand-off between the window thread and the render thread.
//!
//! The window thread is the only producer and the render thread the only
//! consumer of an unbounded queue of [`WindowEvent`] values; a shared
//! atomic flag signals shutdown. Both live behind trusted declarations:
//! the queue is shared between threads through `&`-references, so no
//! contract can pin its contents — another thread may push at any moment.
//! Everything the renderer decides about a drained event is verified
//! downstream in [`crate::frame`], which holds for every event the queue
//! can possibly hand out.

use vstd::prelude::*;
use core::sync::atomic::AtomicBool;
use core::sync::atomic::Ordering;
use std::sync::Arc;
use crossbeam_queue::SegQueue;
use crate::events::WindowEvent;

verus! {

/// Trusted declaration of `crossbeam_queue::SegQueue`, the unbounded
/// lock-free queue the window events travel through. The type is opaque to
/// the verifier; its methods are reached through the wrappers below.
#[verifier::external_type_specification]
#[verifier::external_body]
#[verifier::reject_recursive_types(T)]
pub struct ExSegQueue<T>(SegQueue<T>);

/// Relies on `crossbeam_queue::SegQueue::new`: creates an empty unbounded
/// queue. Nothing about later contents can be promised: any thread holding
/// a reference may push concurrently.
#[verifier::external_body]
pub fn new_event_queue() -> Arc<SegQueue<WindowEvent>> {
    Arc::new(SegQueue::new())
}

/// Relies on `crossbeam_queue::SegQueue::push`: appends the event at the
/// tail of the queue without blocking. The queue is shared across threads
/// behind a `&`-reference, so no clause about its contents would be sound.
#[verifier::external_body]
pub fn push_event(queue: &SegQueue<WindowEvent>, event: WindowEvent) {
    queue.push(event);
}

/// Relies on `crossbeam_queue::SegQueue::pop`: removes and returns the
/// event at the head of the queue, or `None` when the queue is observed
/// empty. Which value comes out depends on what other threads have pushed,
/// so the contract leaves the result open; the callers handle every
/// possible event.
#[verifier::external_body]
pub fn pop_event(queue: &SegQueue<WindowEvent>) -> Option<WindowEvent> {
    queue.pop()
}

/// Pops events until the queue reports empty, or until `max_events` have
/// been taken, and returns them in pop order together with whether the
/// queue was observed empty (a pop returned `None`). The bound keeps one
/// round finite — a full drain of a concurrently fed queue has no
/// well-founded measure — and the frame loop repeats the call until the
/// queue is observed empty, so every event is consumed before any frame
/// work, as many rounds as a burst takes.
pub fn drain_events(queue: &SegQueue<WindowEvent>, max_events: usize) -> (r: (
    Vec<WindowEvent>,
    bool,
))
    ensures
        r.0@.len() <= max_events,
        !r.1 ==> r.0@.len() == max_events,
{
    let mut events: Vec<WindowEvent> = Vec::new();
    let mut taken: usize = 0;
    while taken < max_events
        invariant
            taken <= max_events,
            events@.len() == taken,
        decreases max_events - taken,
    {
        match pop_event(queue) {
            Some(event) => {
                events.push(event);
                taken = taken + 1;
            },
            None => {
                return (events, true);
            },
        }
    }
    (events, false)
}

/// The process-wide shutdown flag. The window thread clears it on a close
/// or destroy notification; the render thread polls it once per frame and
/// leaves its loop when it observes `false`. The atomic accesses go
/// through the standard library's atomics, for which the verifier has
/// declarations but no value tracking — the flag is shared mutable state
/// across threads, so its current value is never a function of one call.
pub struct RunFlag {
    flag: AtomicBool,
}

impl RunFlag {
    /// A fresh flag in the running state.
    pub fn new() -> Arc<RunFlag> {
        Arc::new(RunFlag { flag: AtomicBool::new(true) })
    }

    /// Observes the flag: `true` while no shutdown has been requested
    /// before the load's acquire ordering took effect.
    pub fn is_running(&self) -> bool {
        self.flag.load(Ordering::Acquire)
    }

    /// Requests shutdown with release ordering, so that the render thread
    /// observes every effect that preceded the request.
    pub fn request_shutdown(&self) {
        self.flag.store(false, Ordering::Release)
    }
}

} // verus!
