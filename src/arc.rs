use std::cell::UnsafeCell;
use std::sync::atomic::{AtomicUsize, Ordering};
use vstd::prelude::*;
use crate::primitives::{acquire_fence, compare_exchange_usize, share, spin_hint};
use crate::refcount::{
    downgrade_step, downgrade_step_spec, increment_overflowed, increment_overflows,
    is_last_release, is_unique_spec, released_last,
    upgrade_step, upgrade_step_spec, DowngradeStep, UpgradeStep, WEAK_LOCKED,
};

verus! {

/// The shared allocation: the two counters and the payload slot.
#[verifier::reject_recursive_types(T)]
pub struct ArcData<T> {
    strong: AtomicUsize,
    weak: AtomicUsize,
    data: UnsafeCell<Option<T>>,
}

/// An owning handle: keeps the payload alive.
#[verifier::reject_recursive_types(T)]
pub struct Arc<T> {
    cell: std::sync::Arc<ArcData<T>>,
}

/// A non-owning handle: keeps the allocation alive, not the payload.
#[verifier::reject_recursive_types(T)]
pub struct Weak<T> {
    cell: std::sync::Arc<ArcData<T>>,
}

/// What one attempt to upgrade a weak handle came to.
#[verifier::reject_recursive_types(T)]
pub enum Upgrade<T> {
    /// The strong count went up by one: here is the new strong handle.
    Upgraded(Arc<T>),
    /// The strong count was zero: the payload is gone or going.
    Gone,
    /// The strong count is at the safety bound: the process must abort.
    Overflow,
    /// Another thread changed the strong count first; it now reads as held here.
    Changed(usize),
}

/// What one attempt to make a weak handle came to.
#[verifier::reject_recursive_types(T)]
pub enum Downgrade<T> {
    /// The weak count went up by one: here is the new weak handle.
    Downgraded(Weak<T>),
    /// A uniqueness check holds the weak count locked: read it again.
    Locked,
    /// The weak count is at the safety bound: the process must abort.
    Overflow,
    /// Another thread changed the weak count first; it now reads as held here.
    Changed(usize),
}

/// What an operation on a count decided, together with the count it read.
pub struct Counted<X> {
    /// The count before the operation changed it.
    pub previous: usize,
    /// What the operation decided from `previous`.
    pub result: X,
}

/// The last outcome of a retried operation, the count its last attempt started from, and
/// how many attempts were made.
pub struct Retried<X> {
    pub outcome: X,
    pub observed: usize,
    pub attempts: u64,
}

/// What a uniqueness check read, and what it decided from it.
pub struct UniqueCheck {
    /// The weak count found by the compare-and-swap that locks it from 1.
    pub weak_seen: usize,
    /// The strong count read after that compare-and-swap.
    pub strong_seen: usize,
    /// Whether the checking handle is the only handle of either kind.
    pub unique: bool,
}

impl<T> Arc<T> {
    /// The allocation that this handle refers to.
    pub closed spec fn cell_spec(&self) -> ArcData<T> {
        *self.cell
    }
}

impl<T> Weak<T> {
    /// The allocation that this handle refers to.
    pub closed spec fn cell_spec(&self) -> ArcData<T> {
        *self.cell
    }
}

impl<T> Arc<T> {
    /// Allocates a cell with one strong handle, the strong handles' share of the weak count,
    /// and the payload.
    pub fn new(data: T) -> Self {
        let d = ArcData {
            strong: AtomicUsize::new(1),
            weak: AtomicUsize::new(1),
            data: UnsafeCell::new(Some(data)),
        };
        Arc { cell: std::sync::Arc::new(d) }
    }

    /// Another strong handle to the same cell: adds one to the strong count. `None` when the
    /// count read was past `MAX_REFCOUNT`: the caller must then abort.
    pub fn try_clone(this: &Self) -> (r: Counted<Option<Self>>)
        ensures
            r.result is None <==> increment_overflowed(r.previous as int),
            r.result matches Some(a) ==> a.cell_spec() == this.cell_spec(),
    {
        let previous = this.cell.strong.fetch_add(1, Ordering::Relaxed);
        let result = if increment_overflows(previous) {
            None
        } else {
            Some(Arc { cell: share(&this.cell) })
        };
        Counted { previous, result }
    }

    /// One attempt to make a weak handle, from the weak count `observed` read before: the
    /// count is moved to `observed + 1` only if it still reads `observed`. A locked count, or
    /// one past `MAX_REFCOUNT`, is not touched.
    pub fn downgrade_from(this: &Self, observed: usize) -> (r: Downgrade<T>)
        ensures
            r is Locked <==> downgrade_step_spec(observed as int) is Locked,
            r is Overflow <==> downgrade_step_spec(observed as int) is Overflow,
            r matches Downgrade::Downgraded(w) ==> w.cell_spec() == this.cell_spec()
                && downgrade_step_spec(observed as int) is Attempt,
            r matches Downgrade::Changed(v) ==> v != observed && downgrade_step_spec(
                observed as int,
            ) is Attempt,
    {
        match downgrade_step(observed) {
            DowngradeStep::Locked => Downgrade::Locked,
            DowngradeStep::Overflow => Downgrade::Overflow,
            DowngradeStep::Attempt(next) => match compare_exchange_usize(
                &this.cell.weak,
                observed,
                next,
                Ordering::Acquire,
                Ordering::Relaxed,
            ) {
                Ok(_) => Downgrade::Downgraded(Weak { cell: share(&this.cell) }),
                Err(v) => Downgrade::Changed(v),
            },
        }
    }

    /// A weak handle to the same cell, waiting while a uniqueness check holds the weak count
    /// locked. `Overflow` when the weak count is past `MAX_REFCOUNT`: the caller must then
    /// abort. `Locked` or `Changed` only after `u64::MAX` attempts; the caller then calls
    /// again.
    pub fn downgrade(this: &Self) -> (r: Retried<Downgrade<T>>)
        ensures
            1 <= r.attempts,
            r.outcome is Locked ==> r.attempts == u64::MAX,
            r.outcome is Changed ==> r.attempts == u64::MAX,
            r.outcome is Overflow <==> downgrade_step_spec(r.observed as int) is Overflow,
            r.outcome matches Downgrade::Downgraded(w) ==> w.cell_spec() == this.cell_spec()
                && downgrade_step_spec(r.observed as int) is Attempt,
            r.outcome matches Downgrade::Changed(v) ==> v != r.observed,
    {
        let mut n = this.cell.weak.load(Ordering::Relaxed);
        let mut attempts: u64 = 0;
        loop
            invariant
                attempts < u64::MAX,
            decreases u64::MAX - attempts,
        {
            let outcome = Self::downgrade_from(this, n);
            attempts = attempts + 1;
            if attempts == u64::MAX {
                return Retried { outcome, observed: n, attempts };
            }
            match outcome {
                Downgrade::Locked => {
                    spin_hint();
                    n = this.cell.weak.load(Ordering::Relaxed);
                },
                Downgrade::Changed(v) => {
                    n = v;
                },
                other => {
                    return Retried { outcome: other, observed: n, attempts };
                },
            }
        }
    }

    /// Gives up this strong handle: takes one from the strong count. When the count read was
    /// 1 (the last strong handle), the strong handles' share of the weak count comes back as
    /// a weak handle: its holder alone may now destroy the payload, and then gives the share
    /// up by releasing that handle.
    pub fn release(this: Self) -> (r: Counted<Option<Weak<T>>>)
        ensures
            r.result is Some <==> released_last(r.previous as int),
            r.result matches Some(w) ==> w.cell_spec() == this.cell_spec(),
    {
        let previous = this.cell.strong.fetch_sub(1, Ordering::Release);
        let result = if is_last_release(previous) {
            acquire_fence();
            Some(Weak { cell: this.cell })
        } else {
            None
        };
        Counted { previous, result }
    }

    /// Checks whether this is the only handle of either kind, so that its holder may have
    /// exclusive access to the payload: locks the weak count by compare-and-swap from 1 to
    /// `WEAK_LOCKED` (so that no weak handle can be made meanwhile), reads the strong count,
    /// and restores the weak count if it was locked.
    pub fn is_unique(this: &mut Self) -> (r: UniqueCheck)
        ensures
            r.unique == is_unique_spec(r.strong_seen as int, r.weak_seen as int),
            final(this).cell_spec() == old(this).cell_spec(),
    {
        let weak_seen = match compare_exchange_usize(
            &this.cell.weak,
            1,
            WEAK_LOCKED,
            Ordering::Acquire,
            Ordering::Relaxed,
        ) {
            Ok(v) => v,
            Err(v) => v,
        };
        let strong_seen = this.cell.strong.load(Ordering::Acquire);
        let unique = crate::refcount::is_unique(strong_seen, weak_seen);
        if weak_seen == 1 {
            this.cell.weak.store(1, Ordering::Release);
        }
        UniqueCheck { weak_seen, strong_seen, unique }
    }

    /// The payload slot, for the holder of a strong handle to read.
    pub fn payload(this: &Self) -> &UnsafeCell<Option<T>> {
        &this.cell.data
    }
}

impl<T> Weak<T> {
    /// Another weak handle to the same cell: adds one to the weak count. `None` when the
    /// count read was past `MAX_REFCOUNT`: the caller must then abort.
    pub fn try_clone(&self) -> (r: Counted<Option<Self>>)
        ensures
            r.result is None <==> increment_overflowed(r.previous as int),
            r.result matches Some(w) ==> w.cell_spec() == self.cell_spec(),
    {
        let previous = self.cell.weak.fetch_add(1, Ordering::Relaxed);
        let result = if increment_overflows(previous) {
            None
        } else {
            Some(Weak { cell: share(&self.cell) })
        };
        Counted { previous, result }
    }

    /// Reads the strong count, to start an upgrade from.
    pub fn strong_count(&self) -> usize {
        self.cell.strong.load(Ordering::Relaxed)
    }

    /// One attempt to upgrade, from the strong count `observed` read before: zero gives
    /// `Gone`; otherwise the count is moved to `observed + 1` only if it still reads
    /// `observed`, and a count that has changed is handed back for the next attempt.
    pub fn upgrade_from(&self, observed: usize) -> (r: Upgrade<T>)
        ensures
            r is Gone <==> observed == 0,
            r is Overflow <==> upgrade_step_spec(observed as int) is Overflow,
            r matches Upgrade::Upgraded(a) ==> a.cell_spec() == self.cell_spec() && upgrade_step_spec(
                observed as int,
            ) is Attempt,
            r matches Upgrade::Changed(v) ==> v != observed && upgrade_step_spec(observed as int) is Attempt,
    {
        match upgrade_step(observed) {
            UpgradeStep::Gone => Upgrade::Gone,
            UpgradeStep::Overflow => Upgrade::Overflow,
            UpgradeStep::Attempt(next) => match compare_exchange_usize(
                &self.cell.strong,
                observed,
                next,
                Ordering::Acquire,
                Ordering::Relaxed,
            ) {
                Ok(_) => Upgrade::Upgraded(Arc { cell: share(&self.cell) }),
                Err(v) => Upgrade::Changed(v),
            },
        }
    }

    /// Upgrades to a strong handle unless the strong count is zero, by compare-and-swap from
    /// the value read, retried while other threads change the count. `Gone` only from a
    /// count read as zero; `Changed` only after `u64::MAX` attempts that other threads
    /// overtook, and the caller then calls again.
    pub fn upgrade(&self) -> (r: Retried<Upgrade<T>>)
        ensures
            1 <= r.attempts,
            r.outcome is Gone <==> r.observed == 0,
            r.outcome is Overflow <==> upgrade_step_spec(r.observed as int) is Overflow,
            r.outcome matches Upgrade::Upgraded(a) ==> a.cell_spec() == self.cell_spec()
                && upgrade_step_spec(r.observed as int) is Attempt,
            r.outcome matches Upgrade::Changed(v) ==> v != r.observed && r.attempts == u64::MAX,
    {
        let mut n = self.strong_count();
        let mut attempts: u64 = 0;
        loop
            invariant
                attempts < u64::MAX,
            decreases u64::MAX - attempts,
        {
            let outcome = self.upgrade_from(n);
            attempts = attempts + 1;
            if attempts == u64::MAX {
                return Retried { outcome, observed: n, attempts };
            }
            match outcome {
                Upgrade::Changed(v) => {
                    n = v;
                },
                other => {
                    return Retried { outcome: other, observed: n, attempts };
                },
            }
        }
    }

    /// Gives up this weak handle: takes one from the weak count. `result` is `true` when the
    /// count read was 1, the last unit, so that the allocation goes with it.
    pub fn release(self) -> (r: Counted<bool>)
        ensures
            r.result == released_last(r.previous as int),
    {
        let previous = self.cell.weak.fetch_sub(1, Ordering::Release);
        let result = is_last_release(previous);
        if result {
            acquire_fence();
        }
        Counted { previous, result }
    }

    /// The payload slot, for the holder of the strong handles' share to empty.
    pub fn payload(&self) -> &UnsafeCell<Option<T>> {
        &self.cell.data
    }
}

} // verus!
