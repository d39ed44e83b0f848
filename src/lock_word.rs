use vstd::prelude::*;

verus! {

/// The lock word holds no owner.
pub const UNLOCKED: u32 = 0;

/// The lock word is owned and no thread is known to be blocked on it.
pub const LOCKED: u32 = 1;

/// The lock word is owned and at least one thread is, or may be, blocked on it.
pub const LOCKED_WITH_WAITERS: u32 = 2;

/// How many times the contended path re-reads a `LOCKED` word before it blocks.
pub const SPIN_LIMIT: u32 = 100;

/// Where a thread stands in acquiring the lock word.
#[derive(Clone, Copy, PartialEq, Eq, Structural, Debug)]
pub enum LockPhase {
    /// One compare-and-swap from `UNLOCKED` to `LOCKED`.
    Fast,
    /// Re-reading the word while it is `LOCKED`; the count says how often that was done.
    Spin(u32),
    /// One more compare-and-swap from `UNLOCKED` to `LOCKED` after spinning.
    Retry,
    /// Swapping `LOCKED_WITH_WAITERS` in; the lock is taken if the word was `UNLOCKED`.
    Contend,
    /// Blocking while the word equals `LOCKED_WITH_WAITERS`.
    Park,
}

/// What a thread does next after one phase of acquisition.
#[derive(Clone, Copy, PartialEq, Eq, Structural, Debug)]
pub enum LockStep {
    /// The lock is held by the thread.
    Acquired,
    /// The thread goes on with the given phase.
    Continue(LockPhase),
}

/// The operation that a phase performs on the lock word.
#[derive(Clone, Copy, PartialEq, Eq, Structural, Debug)]
pub enum WordOp {
    /// Compare-and-swap from `UNLOCKED` to `LOCKED`.
    TakeIfFree,
    /// Plain read.
    Read,
    /// Unconditional swap to `LOCKED_WITH_WAITERS`.
    MarkContended,
    /// Block while the word equals `LOCKED_WITH_WAITERS`; no value is read.
    Block,
}

pub open spec fn phase_op(p: LockPhase) -> WordOp {
    match p {
        LockPhase::Fast => WordOp::TakeIfFree,
        LockPhase::Spin(_) => WordOp::Read,
        LockPhase::Retry => WordOp::TakeIfFree,
        LockPhase::Contend => WordOp::MarkContended,
        LockPhase::Park => WordOp::Block,
    }
}

/// The acquisition algorithm: the step that follows `p` when its operation read `observed`
/// (the previous value for a swap or a compare-and-swap, the current value for a read).
pub open spec fn lock_step_spec(p: LockPhase, observed: u32) -> LockStep {
    match p {
        LockPhase::Fast => if observed == UNLOCKED {
            LockStep::Acquired
        } else {
            LockStep::Continue(LockPhase::Spin(0))
        },
        LockPhase::Spin(k) => if observed == LOCKED && k < SPIN_LIMIT {
            LockStep::Continue(LockPhase::Spin((k + 1) as u32))
        } else {
            LockStep::Continue(LockPhase::Retry)
        },
        LockPhase::Retry => if observed == UNLOCKED {
            LockStep::Acquired
        } else {
            LockStep::Continue(LockPhase::Contend)
        },
        LockPhase::Contend => if observed == UNLOCKED {
            LockStep::Acquired
        } else {
            LockStep::Continue(LockPhase::Park)
        },
        LockPhase::Park => LockStep::Continue(LockPhase::Contend),
    }
}

/// Whether releasing a lock whose word held `prev` must wake a blocked thread.
pub open spec fn release_must_wake(prev: u32) -> bool {
    prev == LOCKED_WITH_WAITERS
}

/// The operation on the lock word that phase `p` performs.
pub fn op_of(p: LockPhase) -> (r: WordOp)
    ensures
        r == phase_op(p),
{
    match p {
        LockPhase::Fast => WordOp::TakeIfFree,
        LockPhase::Spin(_) => WordOp::Read,
        LockPhase::Retry => WordOp::TakeIfFree,
        LockPhase::Contend => WordOp::MarkContended,
        LockPhase::Park => WordOp::Block,
    }
}

/// Decides the next step of acquisition from the value that the phase's operation read.
pub fn lock_step(p: LockPhase, observed: u32) -> (r: LockStep)
    ensures
        r == lock_step_spec(p, observed),
{
    match p {
        LockPhase::Fast => if observed == UNLOCKED {
            LockStep::Acquired
        } else {
            LockStep::Continue(LockPhase::Spin(0))
        },
        LockPhase::Spin(k) => if observed == LOCKED && k < SPIN_LIMIT {
            LockStep::Continue(LockPhase::Spin(k + 1))
        } else {
            LockStep::Continue(LockPhase::Retry)
        },
        LockPhase::Retry => if observed == UNLOCKED {
            LockStep::Acquired
        } else {
            LockStep::Continue(LockPhase::Contend)
        },
        LockPhase::Contend => if observed == UNLOCKED {
            LockStep::Acquired
        } else {
            LockStep::Continue(LockPhase::Park)
        },
        LockPhase::Park => LockStep::Continue(LockPhase::Contend),
    }
}

/// Decides, from the value that the releasing swap returned, whether to wake a waiter.
pub fn must_wake_after_release(prev: u32) -> (r: bool)
    ensures
        r == release_must_wake(prev),
{
    prev == LOCKED_WITH_WAITERS
}

// ---------------------------------------------------------------------------
// A model of the lock word shared by many threads, one atomic operation at a time.

/// The lock word together with the thread that holds the lock, if any.
pub struct WordModel {
    pub word: u32,
    pub holder: Option<nat>,
}

/// One atomic event on the lock word: a thread performs the operation of its phase,
/// or the holder releases.
pub enum LockEvent {
    Step { thread: nat, phase: LockPhase },
    Release,
}

/// The word as it is created: unlocked and held by nobody.
pub open spec fn initial_model() -> WordModel {
    WordModel { word: UNLOCKED, holder: None }
}

/// The word takes one of the three states, and it is `UNLOCKED` exactly when nobody holds it.
pub open spec fn model_wf(m: WordModel) -> bool {
    &&& m.word <= LOCKED_WITH_WAITERS
    &&& (m.holder is Some <==> m.word != UNLOCKED)
}

/// The value read and the value left by an operation on a word that held `w`.
pub open spec fn apply_op(w: u32, op: WordOp) -> (u32, u32) {
    match op {
        WordOp::TakeIfFree => (w, if w == UNLOCKED { LOCKED } else { w }),
        WordOp::Read => (w, w),
        WordOp::MarkContended => (w, LOCKED_WITH_WAITERS),
        WordOp::Block => (w, w),
    }
}

/// Thread `t` performs the operation of phase `p` on the word.
pub open spec fn model_lock_step(m: WordModel, t: nat, p: LockPhase) -> (WordModel, LockStep) {
    let (observed, w2) = apply_op(m.word, phase_op(p));
    let s = lock_step_spec(p, observed);
    (WordModel { word: w2, holder: if s is Acquired { Some(t) } else { m.holder } }, s)
}

/// The holder releases: the word becomes `UNLOCKED`; the flag says whether a waiter is woken.
pub open spec fn model_release(m: WordModel) -> (WordModel, bool) {
    (WordModel { word: UNLOCKED, holder: None }, release_must_wake(m.word))
}

pub open spec fn model_event(m: WordModel, e: LockEvent) -> WordModel {
    match e {
        LockEvent::Step { thread, phase } => model_lock_step(m, thread, phase).0,
        LockEvent::Release => model_release(m).0,
    }
}

/// The word after the events in order, from `m`.
pub open spec fn model_run(m: WordModel, events: Seq<LockEvent>) -> WordModel
    decreases events.len(),
{
    if events.len() == 0 {
        m
    } else {
        model_event(model_run(m, events.drop_last()), events.last())
    }
}

/// Mutual exclusion: a thread acquires the lock only from a word that nobody holds,
/// and every operation keeps the word well formed.
pub proof fn lemma_acquire_only_when_free(m: WordModel, t: nat, p: LockPhase)
    requires
        model_wf(m),
    ensures
        model_wf(model_lock_step(m, t, p).0),
        model_lock_step(m, t, p).1 is Acquired ==> m.holder is None && m.word == UNLOCKED
            && model_lock_step(m, t, p).0.holder == Some(t),
        !(model_lock_step(m, t, p).1 is Acquired) ==> model_lock_step(m, t, p).0.holder
            == m.holder,
{
}

/// Whatever the interleaving of lock steps and releases, the word stays well formed:
/// once no guard is outstanding the word is `UNLOCKED`.
pub proof fn lemma_no_holder_means_unlocked(events: Seq<LockEvent>)
    ensures
        model_wf(model_run(initial_model(), events)),
        model_run(initial_model(), events).holder is None ==> model_run(
            initial_model(),
            events,
        ).word == UNLOCKED,
    decreases events.len(),
{
    if events.len() > 0 {
        lemma_no_holder_means_unlocked(events.drop_last());
        let m = model_run(initial_model(), events.drop_last());
        match events.last() {
            LockEvent::Step { thread, phase } => {
                lemma_acquire_only_when_free(m, thread, phase);
            },
            LockEvent::Release => {},
        }
    }
}

// ---------------------------------------------------------------------------
// Threads that each add one to a value guarded by the lock, as read then write.

/// How far the holder has come in its critical section.
pub enum Section {
    /// Nothing read yet.
    Fresh,
    /// The guarded value was read; the copy is in `local`.
    HasRead,
    /// The copy plus one was written back.
    Written,
}

/// The lock word, the guarded value, the holder's copy and progress, and how many critical
/// sections have been completed.
pub struct CounterModel {
    pub lock: WordModel,
    pub value: int,
    pub local: int,
    pub section: Section,
    pub completed: nat,
}

/// An event of a thread that adds one under the lock.
pub enum CounterEvent {
    /// A step of acquisition.
    Lock { thread: nat, phase: LockPhase },
    /// The holder reads the guarded value.
    Read { thread: nat },
    /// The holder writes its copy plus one.
    Write { thread: nat },
    /// The holder releases the lock.
    Unlock { thread: nat },
}

pub open spec fn initial_counter() -> CounterModel {
    CounterModel { lock: initial_model(), value: 0, local: 0, section: Section::Fresh, completed: 0 }
}

/// Only the holder reaches the guarded value, in the order read, write, release.
pub open spec fn counter_event_enabled(m: CounterModel, e: CounterEvent) -> bool {
    match e {
        CounterEvent::Lock { .. } => true,
        CounterEvent::Read { thread } => m.lock.holder == Some(thread) && m.section is Fresh,
        CounterEvent::Write { thread } => m.lock.holder == Some(thread) && m.section is HasRead,
        CounterEvent::Unlock { thread } => m.lock.holder == Some(thread) && m.section is Written,
    }
}

pub open spec fn counter_event(m: CounterModel, e: CounterEvent) -> CounterModel {
    match e {
        CounterEvent::Lock { thread, phase } => {
            let (l, s) = model_lock_step(m.lock, thread, phase);
            CounterModel {
                lock: l,
                section: if s is Acquired { Section::Fresh } else { m.section },
                ..m
            }
        },
        CounterEvent::Read { .. } => CounterModel { local: m.value, section: Section::HasRead, ..m },
        CounterEvent::Write { .. } => CounterModel {
            value: m.local + 1,
            section: Section::Written,
            ..m
        },
        CounterEvent::Unlock { .. } => CounterModel {
            lock: model_release(m.lock).0,
            section: Section::Fresh,
            completed: m.completed + 1,
            ..m
        },
    }
}

pub open spec fn counter_run(events: Seq<CounterEvent>) -> CounterModel
    decreases events.len(),
{
    if events.len() == 0 {
        initial_counter()
    } else {
        counter_event(counter_run(events.drop_last()), events.last())
    }
}

pub open spec fn counter_run_enabled(events: Seq<CounterEvent>) -> bool
    decreases events.len(),
{
    events.len() == 0 || (counter_run_enabled(events.drop_last()) && counter_event_enabled(
        counter_run(events.drop_last()),
        events.last(),
    ))
}

/// The guarded value counts the completed sections, plus the one whose write is done.
pub open spec fn counter_wf(m: CounterModel) -> bool {
    &&& model_wf(m.lock)
    &&& m.value == m.completed + (if m.section is Written { 1int } else { 0int })
    &&& (m.section is HasRead ==> m.local == m.value)
    &&& (!(m.section is Fresh) ==> m.lock.holder is Some)
}

/// No update is lost: in every interleaving of threads that lock, read, write one more and
/// unlock, the guarded value equals the number of completed critical sections whenever
/// nobody holds the lock; so `N` threads that each complete `M` sections leave `N * M`.
pub proof fn lemma_no_lost_update(events: Seq<CounterEvent>)
    requires
        counter_run_enabled(events),
    ensures
        counter_wf(counter_run(events)),
        counter_run(events).lock.holder is None ==> counter_run(events).value == counter_run(
            events,
        ).completed,
    decreases events.len(),
{
    if events.len() > 0 {
        lemma_no_lost_update(events.drop_last());
        let m = counter_run(events.drop_last());
        match events.last() {
            CounterEvent::Lock { thread, phase } => {
                lemma_acquire_only_when_free(m.lock, thread, phase);
            },
            _ => {},
        }
    }
}

} // verus!
