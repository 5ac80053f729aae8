//! An unbounded, thread-safe, multi-producer/multi-consumer blocking queue.
//!
//! Any number of producer threads may [`MpmcQueue::push`] and any number of
//! consumer threads may [`MpmcQueue::pop`]; a consumer finding the queue empty
//! suspends until a producer inserts an element, instead of busy-polling.
//!
//! All access to the buffer is serialized by one mutex, so the pushes and pops
//! form a single total order. Relative to that order the queue is a pure FIFO:
//! the [`history`] module states this as a small transition model and proves
//! that every serialized run delivers the pushed elements in push order,
//! without loss or duplication.

use vstd::prelude::*;

use std::collections::VecDeque;
use std::sync::Condvar;
use std::sync::Mutex;

pub mod history;
mod locking;

verus! {

/// A first-in-first-out queue shared by concurrent producers and consumers.
///
/// The pending elements live in a [`VecDeque`] behind a [`Mutex`]; the
/// condition variable lets a consumer that found the buffer empty sleep until
/// a producer signals an insertion.
#[verifier::reject_recursive_types(T)]
pub struct MpmcQueue<T> {
    /// The pending elements, oldest first. Read or written only while the
    /// lock is held; unbounded.
    buffer: Mutex<VecDeque<T>>,
    /// Signalled on every insertion, to wake a consumer suspended in `pop`.
    /// A wakeup is only a hint: the woken consumer re-checks the buffer.
    nonempty: Condvar,
}

impl<T> MpmcQueue<T> {
    /// Creates an empty queue.
    ///
    /// Nothing can be stated here about the shared buffer: its contents are
    /// visible to verified code only while a `push` or `pop` holds the lock.
    pub fn new() -> (queue: MpmcQueue<T>) {
        MpmcQueue {
            buffer: locking::mutex_new(VecDeque::new()),
            nonempty: locking::condvar_new(),
        }
    }

    /// Appends `value` at the tail of the buffer and wakes one waiting
    /// consumer, if any. Never blocks on a full queue (there is no bound) and
    /// never fails; the locked section is one run of [`append_tail`], which
    /// provably appends exactly `value` and nothing else.
    pub fn push(&self, value: T) {
        let mut guard = locking::lock(&self.buffer);
        let mut pending = locking::guard_replace(&mut guard, VecDeque::new());
        append_tail(&mut pending, value);
        let _ = locking::guard_replace(&mut guard, pending);
        locking::notify_one(&self.nonempty);
    }

    /// Removes and returns the oldest pending element, suspending while the
    /// buffer is empty.
    ///
    /// The wait re-checks the buffer after every wakeup, so a spurious wakeup,
    /// or a wakeup raced by another consumer that took the element first,
    /// sends the thread back to sleep instead of failing. Each check is one
    /// run of [`claim_head`] under the lock, which removes the head exactly
    /// when the buffer is non-empty, so a returned value is never absent:
    /// absence of data shows up as blocking, not as `None`. May suspend
    /// indefinitely if no producer ever pushes again; that is the expected
    /// outcome, not an error.
    pub fn pop(&self) -> (result: Option<T>)
        ensures
            result is Some,
    {
        let guard = locking::lock(&self.buffer);
        let mut claimed: Option<T> = None;
        let _reacquired = locking::wait_for_head(&self.nonempty, guard, &mut claimed);
        claimed
    }
}

/// The producer's critical section, run under the lock: appends `value` at
/// the tail of the buffer and changes nothing else.
///
/// This is [`history::QueueModel::step`] on a push: the buffer grows by
/// exactly the pushed value, at the end.
pub fn append_tail<T>(pending: &mut VecDeque<T>, value: T)
    ensures
        final(pending)@ == old(pending)@.push(value),
{
    pending.push_back(value);
}

/// The consumer's critical section: one emptiness check, run under the lock.
///
/// If the buffer is empty nothing changes and the caller must keep waiting;
/// otherwise the head element moves from the buffer into `out` and the wait is
/// over. This is [`history::QueueModel::step`] on a pop, with `out` carrying
/// the delivered value; the wait/notify machinery around it only decides how
/// often it runs.
pub fn claim_head<T>(pending: &mut VecDeque<T>, out: &mut Option<T>) -> (keep_waiting: bool)
    ensures
        keep_waiting <==> old(pending)@.len() == 0,
        old(pending)@.len() == 0 ==> final(pending)@ == old(pending)@ && *final(out) == *old(out),
        old(pending)@.len() > 0 ==> final(pending)@ == old(pending)@.drop_first() && *final(out)
            == Some(old(pending)@.first()),
{
    let head = pending.pop_front();
    match head {
        Some(value) => {
            *out = Some(value);
            false
        },
        None => true,
    }
}

} // verus!
