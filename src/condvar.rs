use std::sync::atomic::{AtomicU32, Ordering};
use vstd::prelude::*;
use crate::lock_word::{
    initial_model, lemma_acquire_only_when_free, model_lock_step, model_release, model_wf,
    LockPhase, Section, WordModel, LOCKED,
};
use crate::mutex::{Guard, LockReport};
use crate::wait::WordWaiter;

verus! {

/// A condition variable: an epoch counter that every notification advances.
pub struct Condvar<W> {
    counter: AtomicU32,
    waiter: W,
}

/// The epoch counter `k` notifications after it read `e`; the counter wraps around.
pub open spec fn epoch_after(e: u32, k: nat) -> u32 {
    ((e + k) % 0x1_0000_0000) as u32
}

/// The wait primitive blocks only while the word equals the value the caller expects.
pub open spec fn wait_may_block(word: u32, expected: u32) -> bool {
    word == expected
}

impl<W> Condvar<W> {
    /// The waiter that the condition variable blocks and wakes through.
    pub closed spec fn waiter_spec(&self) -> W {
        self.waiter
    }
}

impl<W: WordWaiter> Condvar<W> {
    pub fn new(waiter: W) -> (r: Self)
        ensures
            r.waiter_spec() == waiter,
    {
        Condvar { counter: AtomicU32::new(0), waiter }
    }

    /// Advances the epoch, then wakes one waiting thread.
    pub fn notify_one(&self) {
        self.counter.fetch_add(1, Ordering::Relaxed);
        self.waiter.wake_one(&self.counter);
    }

    /// Advances the epoch, then wakes every waiting thread.
    pub fn notify_all(&self) {
        self.counter.fetch_add(1, Ordering::Relaxed);
        self.waiter.wake_all(&self.counter);
    }

    /// Takes a snapshot of the epoch, releases the guard's mutex, blocks unless the epoch
    /// has moved past the snapshot, and locks the same mutex again. The caller re-checks its
    /// condition: the wake-up may be spurious. No guard comes back only when relocking gave
    /// up after `u64::MAX` rounds; the caller then locks the returned mutex itself.
    pub fn wait<'a, T, V: WordWaiter>(&self, guard: Guard<'a, T, V>) -> (r: LockReport<'a, T, V>)
        ensures
            *r.mutex == guard.mutex_spec(),
            r.guard matches Some(g) ==> g.mutex_spec() == guard.mutex_spec(),
            r.guard is None ==> r.rounds == u64::MAX,
    {
        let snapshot = self.counter.load(Ordering::Relaxed);
        let m = guard.held_mutex();
        guard.unlock();
        self.waiter.wait(&self.counter, snapshot);
        m.lock()
    }
}

// ---------------------------------------------------------------------------
// One waiter on the condition variable, among other threads that take the lock and notify.

/// How far the waiter has come in one call of `wait`.
pub enum WaitStage {
    /// It holds the lock and has not yet read the epoch.
    Holding,
    /// It holds the lock and has read the epoch into `snapshot`.
    Snapped,
    /// It has released the lock and not yet called the wait primitive.
    Released,
    /// The wait primitive blocked it: the epoch equalled the snapshot.
    Parked,
    /// The wait primitive returned at once: the epoch had moved.
    Running,
}

/// The lock word, the epoch counter, the waiter's snapshot and stage, how many notifications
/// came since the snapshot, and how many had come when it called the wait primitive.
pub struct WaitModel {
    pub lock: WordModel,
    pub epoch: u32,
    pub waiter: nat,
    pub stage: WaitStage,
    pub snapshot: u32,
    pub since: nat,
    pub since_at_park: nat,
}

pub enum WaitEvent {
    /// The waiter reads the epoch.
    Snapshot,
    /// The waiter releases the lock.
    Release,
    /// The waiter calls the wait primitive with its snapshot as the expected value.
    Park,
    /// Some thread notifies: the epoch advances by one, wrapping around.
    Notify,
    /// Another thread takes a step of acquisition.
    Lock { thread: nat, phase: LockPhase },
    /// Another thread, the holder, releases the lock.
    Unlock { thread: nat },
}

/// The waiter `w` holds the lock and calls `wait`; the epoch stands at `e`.
pub open spec fn initial_wait(w: nat, e: u32) -> WaitModel {
    WaitModel {
        lock: WordModel { word: LOCKED, holder: Some(w) },
        epoch: e,
        waiter: w,
        stage: WaitStage::Holding,
        snapshot: 0,
        since: 0,
        since_at_park: 0,
    }
}

pub open spec fn wait_event_enabled(m: WaitModel, e: WaitEvent) -> bool {
    match e {
        WaitEvent::Snapshot => m.stage is Holding,
        WaitEvent::Release => m.stage is Snapped,
        WaitEvent::Park => m.stage is Released,
        WaitEvent::Notify => true,
        WaitEvent::Lock { thread, .. } => thread != m.waiter,
        WaitEvent::Unlock { thread } => thread != m.waiter && m.lock.holder == Some(thread),
    }
}

pub open spec fn wait_event(m: WaitModel, e: WaitEvent) -> WaitModel {
    match e {
        WaitEvent::Snapshot => WaitModel {
            stage: WaitStage::Snapped,
            snapshot: m.epoch,
            since: 0,
            ..m
        },
        WaitEvent::Release => WaitModel {
            lock: model_release(m.lock).0,
            stage: WaitStage::Released,
            ..m
        },
        WaitEvent::Park => WaitModel {
            stage: if wait_may_block(m.epoch, m.snapshot) {
                WaitStage::Parked
            } else {
                WaitStage::Running
            },
            since_at_park: m.since,
            ..m
        },
        WaitEvent::Notify => WaitModel { epoch: epoch_after(m.epoch, 1), since: m.since + 1, ..m },
        WaitEvent::Lock { thread, phase } => WaitModel {
            lock: model_lock_step(m.lock, thread, phase).0,
            ..m
        },
        WaitEvent::Unlock { .. } => WaitModel { lock: model_release(m.lock).0, ..m },
    }
}

pub open spec fn wait_run(m: WaitModel, events: Seq<WaitEvent>) -> WaitModel
    decreases events.len(),
{
    if events.len() == 0 {
        m
    } else {
        wait_event(wait_run(m, events.drop_last()), events.last())
    }
}

pub open spec fn wait_run_enabled(m: WaitModel, events: Seq<WaitEvent>) -> bool
    decreases events.len(),
{
    events.len() == 0 || (wait_run_enabled(m, events.drop_last()) && wait_event_enabled(
        wait_run(m, events.drop_last()),
        events.last(),
    ))
}

/// Once the snapshot is taken, the epoch is the snapshot advanced by the notifications since.
pub open spec fn wait_wf(m: WaitModel) -> bool {
    &&& model_wf(m.lock)
    &&& (m.stage is Holding || m.stage is Snapped) ==> m.lock.holder == Some(m.waiter)
    &&& !(m.stage is Holding) ==> m.epoch == epoch_after(m.snapshot, m.since)
    &&& m.stage is Parked ==> m.since_at_park % 0x1_0000_0000 == 0
}

/// A notification is never missed: in every interleaving of the waiter's snapshot, release and
/// call of the wait primitive with other threads' locking and notifications, the waiter is
/// blocked only if no notification (or a multiple of 2^32 of them) came between its
/// snapshot and that call.
pub proof fn lemma_notification_not_missed(w: nat, e: u32, events: Seq<WaitEvent>)
    requires
        wait_run_enabled(initial_wait(w, e), events),
    ensures
        wait_wf(wait_run(initial_wait(w, e), events)),
        wait_run(initial_wait(w, e), events).stage is Parked ==> wait_run(
            initial_wait(w, e),
            events,
        ).since_at_park % 0x1_0000_0000 == 0,
    decreases events.len(),
{
    if events.len() > 0 {
        lemma_notification_not_missed(w, e, events.drop_last());
        let m = wait_run(initial_wait(w, e), events.drop_last());
        match events.last() {
            WaitEvent::Lock { thread, phase } => {
                lemma_acquire_only_when_free(m.lock, thread, phase);
            },
            WaitEvent::Notify => {
                if !(m.stage is Holding) {
                    lemma_epoch_step(m.snapshot, m.since);
                }
            },
            WaitEvent::Park => {
                lemma_epoch_returns(m.snapshot, m.since);
            },
            _ => {},
        }
    }
}

/// One more notification advances the epoch by one more.
pub proof fn lemma_epoch_step(s: u32, k: nat)
    ensures
        epoch_after(epoch_after(s, k), 1) == epoch_after(s, k + 1),
{
    assert(((((s + k) % 0x1_0000_0000) as u32) + 1) % 0x1_0000_0000 == (s + k + 1)
        % 0x1_0000_0000) by (nonlinear_arith);
}

/// The epoch is back at the snapshot only after a multiple of 2^32 notifications.
pub proof fn lemma_epoch_returns(s: u32, k: nat)
    ensures
        epoch_after(s, k) == s ==> k % 0x1_0000_0000 == 0,
{
    assert(((s + k) % 0x1_0000_0000) == s ==> k % 0x1_0000_0000 == 0) by (nonlinear_arith);
}

// ---------------------------------------------------------------------------
// Producers and consumers that share a queue guarded by the lock. Each reaches the queue
// only while it holds the lock, as a read of the queue and then a write of the new queue;
// a consumer that finds the queue empty releases the lock to wait on the condition variable.

/// The lock word, the guarded queue, the holder's copy of it and progress, and what was sent
/// and received so far, in order.
pub struct QueueModel {
    pub lock: WordModel,
    pub queue: Seq<int>,
    pub local: Seq<int>,
    pub section: Section,
    pub sent: Seq<int>,
    pub received: Seq<int>,
}

pub enum QueueEvent {
    /// A step of acquisition.
    Lock { thread: nat, phase: LockPhase },
    /// The holder reads the queue.
    Read { thread: nat },
    /// The holder writes its copy with a value appended.
    Push { thread: nat, value: int },
    /// The holder, whose copy is not empty, writes it without its front value, which it
    /// keeps.
    Pop { thread: nat },
    /// The holder releases the lock, after its write or to wait for a notification.
    Unlock { thread: nat },
}

pub open spec fn initial_queue() -> QueueModel {
    QueueModel {
        lock: initial_model(),
        queue: Seq::empty(),
        local: Seq::empty(),
        section: Section::Fresh,
        sent: Seq::empty(),
        received: Seq::empty(),
    }
}

/// Only the holder reaches the queue, in the order read, write.
pub open spec fn queue_event_enabled(m: QueueModel, e: QueueEvent) -> bool {
    match e {
        QueueEvent::Lock { .. } => true,
        QueueEvent::Read { thread } => m.lock.holder == Some(thread) && m.section is Fresh,
        QueueEvent::Push { thread, .. } => m.lock.holder == Some(thread) && m.section is HasRead,
        QueueEvent::Pop { thread } => m.lock.holder == Some(thread) && m.section is HasRead
            && m.local.len() > 0,
        QueueEvent::Unlock { thread } => m.lock.holder == Some(thread),
    }
}

pub open spec fn queue_event(m: QueueModel, e: QueueEvent) -> QueueModel {
    match e {
        QueueEvent::Lock { thread, phase } => {
            let (l, s) = model_lock_step(m.lock, thread, phase);
            QueueModel {
                lock: l,
                section: if s is Acquired { Section::Fresh } else { m.section },
                ..m
            }
        },
        QueueEvent::Read { .. } => QueueModel { local: m.queue, section: Section::HasRead, ..m },
        QueueEvent::Push { value, .. } => QueueModel {
            queue: m.local.push(value),
            sent: m.sent.push(value),
            section: Section::Written,
            ..m
        },
        QueueEvent::Pop { .. } => QueueModel {
            queue: m.local.drop_first(),
            received: m.received.push(m.local[0]),
            section: Section::Written,
            ..m
        },
        QueueEvent::Unlock { .. } => QueueModel {
            lock: model_release(m.lock).0,
            section: Section::Fresh,
            ..m
        },
    }
}

pub open spec fn queue_run(events: Seq<QueueEvent>) -> QueueModel
    decreases events.len(),
{
    if events.len() == 0 {
        initial_queue()
    } else {
        queue_event(queue_run(events.drop_last()), events.last())
    }
}

pub open spec fn queue_run_enabled(events: Seq<QueueEvent>) -> bool
    decreases events.len(),
{
    events.len() == 0 || (queue_run_enabled(events.drop_last()) && queue_event_enabled(
        queue_run(events.drop_last()),
        events.last(),
    ))
}

/// What was received, followed by what is queued, is what was sent; the holder's copy, once
/// read, is the queue; only a holder is inside its section.
pub open spec fn queue_wf(m: QueueModel) -> bool {
    &&& model_wf(m.lock)
    &&& m.received + m.queue == m.sent
    &&& (m.section is HasRead ==> m.local == m.queue)
    &&& (!(m.section is Fresh) ==> m.lock.holder is Some)
}

/// Nothing sent through the guarded queue is lost or duplicated, in every interleaving of
/// producers and consumers that read and write the queue under the lock: what was received,
/// followed by what is still queued, is exactly what was sent, in order. Once the queue is
/// drained, every value sent was received exactly once.
pub proof fn lemma_queue_conserves(events: Seq<QueueEvent>)
    requires
        queue_run_enabled(events),
    ensures
        queue_wf(queue_run(events)),
        queue_run(events).queue.len() == 0 ==> queue_run(events).received == queue_run(
            events,
        ).sent,
    decreases events.len(),
{
    if events.len() == 0 {
        assert(initial_queue().received + initial_queue().queue =~= initial_queue().sent);
    } else {
        lemma_queue_conserves(events.drop_last());
        let m = queue_run(events.drop_last());
        let m2 = queue_run(events);
        match events.last() {
            QueueEvent::Lock { thread, phase } => {
                lemma_acquire_only_when_free(m.lock, thread, phase);
            },
            QueueEvent::Push { value, .. } => {
                assert(m2.received + m2.queue =~= (m.received + m.queue).push(value));
            },
            QueueEvent::Pop { .. } => {
                assert(m2.received + m2.queue =~= m.received + m.queue);
            },
            _ => {},
        }
        if m2.queue.len() == 0 {
            assert(m2.received + m2.queue =~= m2.received);
        }
    }
}

} // verus!
