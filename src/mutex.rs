use std::cell::UnsafeCell;
use std::sync::atomic::{AtomicU32, Ordering};
use vstd::prelude::*;
use crate::primitives::{compare_exchange_u32, spin_hint};
use crate::lock_word::{
    lock_step, lock_step_spec, must_wake_after_release, release_must_wake, op_of, LockPhase, LockStep, WordOp,
    LOCKED, LOCKED_WITH_WAITERS, UNLOCKED,
};
use crate::wait::WordWaiter;

verus! {

/// A lock word, the value it guards, and the waiter it blocks through. The value is reached
/// only through a `Guard`, which only an acquisition that found the word `UNLOCKED` makes.
#[verifier::reject_recursive_types(T)]
pub struct Mutex<T, W> {
    state: AtomicU32,
    value: UnsafeCell<T>,
    waiter: W,
}

/// Proof that the lock of `mutex` is held; it cannot be made outside this module.
#[verifier::reject_recursive_types(T)]
pub struct Guard<'a, T, W: WordWaiter> {
    mutex: &'a Mutex<T, W>,
}

/// How an acquisition went: the mutex, the guard unless it gave up, how many phases it ran,
/// and what its first compare-and-swap found in the word.
#[verifier::reject_recursive_types(T)]
pub struct LockReport<'a, T, W: WordWaiter> {
    pub mutex: &'a Mutex<T, W>,
    pub guard: Option<Guard<'a, T, W>>,
    pub rounds: u64,
    pub first_observed: u32,
}

/// What releasing the lock found in the word, and whether it woke a waiter.
pub struct Unlocked {
    /// The value that the releasing swap replaced with `UNLOCKED`.
    pub previous: u32,
    /// Whether one blocked thread was woken.
    pub woke: bool,
}

/// What one phase of acquisition read, and what follows from it.
#[verifier::reject_recursive_types(T)]
pub struct Advance<'a, T, W: WordWaiter> {
    /// The value the phase's operation read: the previous value for a swap or a
    /// compare-and-swap, the current value for a read. Parking reads nothing; it holds the
    /// value parking blocked on, `LOCKED_WITH_WAITERS`.
    pub observed: u32,
    /// The guard if the lock was acquired, else the next phase.
    pub outcome: Result<Guard<'a, T, W>, LockPhase>,
}

impl<T, W> Mutex<T, W> {
    /// The waiter that the mutex blocks and wakes through.
    pub closed spec fn waiter_spec(&self) -> W {
        self.waiter
    }
}

impl<'a, T, W: WordWaiter> Guard<'a, T, W> {
    /// The mutex that this guard holds.
    pub closed spec fn mutex_spec(&self) -> Mutex<T, W> {
        *self.mutex
    }
}

impl<T, W: WordWaiter> Mutex<T, W> {
    /// An unlocked mutex that guards `value`.
    pub fn new(value: T, waiter: W) -> (r: Self)
        ensures
            r.waiter_spec() == waiter,
    {
        Mutex { state: AtomicU32::new(UNLOCKED), value: UnsafeCell::new(value), waiter }
    }

    /// Acquires the lock by the contention-aware algorithm: one compare-and-swap, a bounded
    /// spin while the word is `LOCKED`, one more compare-and-swap, then swapping in
    /// `LOCKED_WITH_WAITERS` and blocking between swaps until a swap finds `UNLOCKED`.
    ///
    /// The guard comes at the first round when the first compare-and-swap finds the word
    /// `UNLOCKED`; none comes only after `u64::MAX` rounds without the lock (centuries of
    /// blocking), and the caller then calls again.
    pub fn lock(&self) -> (r: LockReport<'_, T, W>)
        ensures
            *r.mutex == *self,
            r.guard matches Some(g) ==> g.mutex_spec() == *self,
            1 <= r.rounds,
            r.guard is None ==> r.rounds == u64::MAX,
            r.first_observed == UNLOCKED ==> r.guard is Some && r.rounds == 1,
    {
        let first = self.advance(LockPhase::Fast);
        let first_observed = first.observed;
        let mut phase = match first.outcome {
            Ok(g) => {
                return LockReport { mutex: self, guard: Some(g), rounds: 1, first_observed };
            },
            Err(next) => next,
        };
        let mut rounds: u64 = 1;
        loop
            invariant
                1 <= rounds <= u64::MAX,
                first_observed != UNLOCKED,
            decreases u64::MAX - rounds,
        {
            if rounds == u64::MAX {
                return LockReport { mutex: self, guard: None, rounds, first_observed };
            }
            let step = self.advance(phase);
            rounds = rounds + 1;
            match step.outcome {
                Ok(g) => {
                    return LockReport { mutex: self, guard: Some(g), rounds, first_observed };
                },
                Err(next) => {
                    phase = next;
                },
            }
        }
    }

    /// Performs the operation of phase `p` on the lock word and decides what follows from
    /// the value it read: the guard, or the next phase.
    pub fn advance(&self, p: LockPhase) -> (r: Advance<'_, T, W>)
        ensures
            r.outcome matches Ok(g) ==> g.mutex_spec() == *self,
            p is Park ==> r.observed == LOCKED_WITH_WAITERS,
            lock_step_spec(p, r.observed) == match r.outcome {
                Ok(_) => LockStep::Acquired,
                Err(q) => LockStep::Continue(q),
            },
    {
        let observed: u32 = match op_of(p) {
            WordOp::TakeIfFree => match compare_exchange_u32(
                &self.state,
                UNLOCKED,
                LOCKED,
                Ordering::Acquire,
                Ordering::Relaxed,
            ) {
                Ok(v) => v,
                Err(v) => v,
            },
            WordOp::Read => {
                spin_hint();
                self.state.load(Ordering::Relaxed)
            },
            WordOp::MarkContended => self.state.swap(LOCKED_WITH_WAITERS, Ordering::Acquire),
            WordOp::Block => {
                self.waiter.wait(&self.state, LOCKED_WITH_WAITERS);
                LOCKED_WITH_WAITERS
            },
        };
        let outcome = match lock_step(p, observed) {
            LockStep::Acquired => Ok(Guard { mutex: self }),
            LockStep::Continue(q) => Err(q),
        };
        Advance { observed, outcome }
    }
}

impl<'a, T, W: WordWaiter> Guard<'a, T, W> {
    /// The mutex that this guard holds.
    pub fn mutex(&self) -> (m: &Mutex<T, W>)
        ensures
            *m == self.mutex_spec(),
    {
        self.mutex
    }

    /// The mutex that this guard holds, for as long as the mutex is borrowed.
    pub(crate) fn held_mutex(&self) -> (m: &'a Mutex<T, W>)
        ensures
            *m == self.mutex_spec(),
    {
        self.mutex
    }

    /// The cell of the guarded value, borrowed no longer than the guard. Only the holder of
    /// this guard may reach into it.
    pub fn value(&self) -> &UnsafeCell<T> {
        &self.mutex.value
    }

    /// Releases the lock: stores `UNLOCKED` and wakes one blocked thread if the word said
    /// that some may be waiting.
    pub fn unlock(self) -> (r: Unlocked)
        ensures
            r.woke == release_must_wake(r.previous),
    {
        let previous = self.mutex.state.swap(UNLOCKED, Ordering::Release);
        let woke = must_wake_after_release(previous);
        if woke {
            self.mutex.waiter.wake_one(&self.mutex.state);
        }
        Unlocked { previous, woke }
    }
}

} // verus!
