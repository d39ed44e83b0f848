use vstd::prelude::*;

verus! {

/// Counts above this bound are refused: an increment from there aborts the process instead
/// of risking a wraparound.
pub const MAX_REFCOUNT: usize = usize::MAX / 2;

/// The weak count while a strong handle checks whether it is the only handle: no weak handle
/// can be made meanwhile.
pub const WEAK_LOCKED: usize = usize::MAX;

/// Whether an increment that found the count at `prev` went past the safety bound.
pub open spec fn increment_overflowed(prev: int) -> bool {
    prev > MAX_REFCOUNT
}

/// Whether a decrement that found the count at `prev` released the last unit.
pub open spec fn released_last(prev: int) -> bool {
    prev == 1
}

/// What an attempt to upgrade a weak handle does with the strong count it read.
#[derive(Clone, Copy, PartialEq, Eq, Structural, Debug)]
pub enum UpgradeStep {
    /// The count is zero: the payload is gone or going, and no handle is made.
    Gone,
    /// Try to move the count from the value read to the one held here.
    Attempt(usize),
    /// The count is at the safety bound: the process must abort.
    Overflow,
}

pub open spec fn upgrade_step_spec(n: int) -> UpgradeStep {
    if n == 0 {
        UpgradeStep::Gone
    } else if n > MAX_REFCOUNT {
        UpgradeStep::Overflow
    } else {
        UpgradeStep::Attempt((n + 1) as usize)
    }
}

/// What an attempt to make a weak handle does with the weak count it read.
#[derive(Clone, Copy, PartialEq, Eq, Structural, Debug)]
pub enum DowngradeStep {
    /// The weak count is locked by a uniqueness check: read it again.
    Locked,
    /// The weak count is at the safety bound: the process must abort.
    Overflow,
    /// Try to move the count from the value read to the one held here.
    Attempt(usize),
}

pub open spec fn downgrade_step_spec(n: int) -> DowngradeStep {
    if n == WEAK_LOCKED {
        DowngradeStep::Locked
    } else if n > MAX_REFCOUNT {
        DowngradeStep::Overflow
    } else {
        DowngradeStep::Attempt((n + 1) as usize)
    }
}

/// Whether a strong handle is the only handle of any kind: the compare-and-swap that locks
/// the weak count found it at 1 (the strong handles' share alone), and the strong count read
/// while it was locked is 1.
pub open spec fn is_unique_spec(strong: int, weak: int) -> bool {
    strong == 1 && weak == 1
}

/// Decides whether an increment that returned `prev` must abort.
pub fn increment_overflows(prev: usize) -> (r: bool)
    ensures
        r == increment_overflowed(prev as int),
{
    prev > MAX_REFCOUNT
}

/// Decides whether a decrement that returned `prev` released the last unit.
pub fn is_last_release(prev: usize) -> (r: bool)
    ensures
        r == released_last(prev as int),
{
    prev == 1
}

/// Decides what an upgrade does with the strong count `n` that it read.
pub fn upgrade_step(n: usize) -> (r: UpgradeStep)
    ensures
        r == upgrade_step_spec(n as int),
{
    if n == 0 {
        UpgradeStep::Gone
    } else if n > MAX_REFCOUNT {
        UpgradeStep::Overflow
    } else {
        UpgradeStep::Attempt(n + 1)
    }
}

/// Decides what a downgrade does with the weak count `n` that it read.
pub fn downgrade_step(n: usize) -> (r: DowngradeStep)
    ensures
        r == downgrade_step_spec(n as int),
{
    if n == WEAK_LOCKED {
        DowngradeStep::Locked
    } else if n > MAX_REFCOUNT {
        DowngradeStep::Overflow
    } else {
        DowngradeStep::Attempt(n + 1)
    }
}

/// Decides from the two counts read whether exclusive access to the payload may be handed
/// out.
pub fn is_unique(strong: usize, weak: usize) -> (r: bool)
    ensures
        r == is_unique_spec(strong as int, weak as int),
{
    strong == 1 && weak == 1
}

// ---------------------------------------------------------------------------
// A model of one reference-counted cell, one atomic event at a time.

/// The two counters, the live handles of each kind, and how often the payload was destroyed
/// and the allocation freed. `locked` says that a strong handle holds the weak count at
/// `WEAK_LOCKED` to check whether it is alone; `weak` is then the count it will restore.
pub struct CellModel {
    pub strong: nat,
    pub weak: nat,
    pub locked: bool,
    pub arcs: nat,
    pub weaks: nat,
    pub payload_drops: nat,
    pub frees: nat,
}

/// One event on the cell, made by a thread that holds a handle of the needed kind.
pub enum CellEvent {
    CloneArc,
    DropArc,
    Downgrade,
    CloneWeak,
    DropWeak,
    Upgrade,
    /// A strong handle, borrowed exclusively, tries to lock the weak count (from 1).
    LockWeak,
    /// That handle restores the weak count.
    UnlockWeak,
}

/// The cell as the first strong handle creates it.
pub open spec fn new_cell() -> CellModel {
    CellModel { strong: 1, weak: 1, locked: false, arcs: 1, weaks: 0, payload_drops: 0, frees: 0 }
}

/// The counters agree with the live handles: the strong count is the number of strong
/// handles; the weak count is the number of weak handles plus one while any strong handle
/// lives; the payload was destroyed once exactly when no strong handle is left, and the
/// allocation freed once exactly when the weak count is zero.
pub open spec fn cell_wf(m: CellModel) -> bool {
    &&& m.strong == m.arcs
    &&& m.weak == m.weaks + (if m.arcs > 0 { 1nat } else { 0nat })
    &&& m.payload_drops == (if m.arcs == 0 { 1nat } else { 0nat })
    &&& m.frees == (if m.weak == 0 { 1nat } else { 0nat })
    &&& (m.locked ==> m.weaks == 0 && m.arcs >= 1)
}

/// Whether the thread making `e` holds the handle that `e` needs.
pub open spec fn cell_event_enabled(m: CellModel, e: CellEvent) -> bool {
    match e {
        CellEvent::CloneArc => m.arcs > 0,
        // The handle that locked the weak count is borrowed: it is not the one dropped.
        CellEvent::DropArc => m.arcs > (if m.locked { 1nat } else { 0nat }),
        CellEvent::Downgrade => m.arcs > 0,
        CellEvent::CloneWeak => m.weaks > 0,
        CellEvent::DropWeak => m.weaks > 0,
        CellEvent::Upgrade => m.weaks > 0,
        CellEvent::LockWeak => m.arcs > 0 && !m.locked,
        CellEvent::UnlockWeak => m.locked,
    }
}

/// Releases one unit of the weak count; the allocation is freed when it was the last.
pub open spec fn release_weak_unit(m: CellModel) -> CellModel {
    CellModel {
        weak: (m.weak - 1) as nat,
        frees: if released_last(m.weak as int) { m.frees + 1 } else { m.frees },
        ..m
    }
}

pub open spec fn cell_event(m: CellModel, e: CellEvent) -> CellModel {
    match e {
        CellEvent::CloneArc => CellModel { strong: m.strong + 1, arcs: m.arcs + 1, ..m },
        CellEvent::DropArc => {
            let m2 = CellModel { strong: (m.strong - 1) as nat, arcs: (m.arcs - 1) as nat, ..m };
            if released_last(m.strong as int) {
                release_weak_unit(CellModel { payload_drops: m2.payload_drops + 1, ..m2 })
            } else {
                m2
            }
        },
        CellEvent::Downgrade => if m.locked {
            m
        } else {
            CellModel { weak: m.weak + 1, weaks: m.weaks + 1, ..m }
        },
        CellEvent::CloneWeak => CellModel { weak: m.weak + 1, weaks: m.weaks + 1, ..m },
        CellEvent::DropWeak => release_weak_unit(CellModel { weaks: (m.weaks - 1) as nat, ..m }),
        CellEvent::Upgrade => match upgrade_step_spec(m.strong as int) {
            UpgradeStep::Attempt(_) => CellModel { strong: m.strong + 1, arcs: m.arcs + 1, ..m },
            _ => m,
        },
        CellEvent::LockWeak => if m.weak == 1 {
            CellModel { locked: true, ..m }
        } else {
            m
        },
        CellEvent::UnlockWeak => CellModel { locked: false, ..m },
    }
}

/// Whether every event of `events` is made by a holder of the handle it needs.
pub open spec fn cell_run_enabled(m: CellModel, events: Seq<CellEvent>) -> bool
    decreases events.len(),
{
    events.len() == 0 || (cell_run_enabled(m, events.drop_last()) && cell_event_enabled(
        cell_run(m, events.drop_last()),
        events.last(),
    ))
}

/// The cell after the events in order, from `m`.
pub open spec fn cell_run(m: CellModel, events: Seq<CellEvent>) -> CellModel
    decreases events.len(),
{
    if events.len() == 0 {
        m
    } else {
        cell_event(cell_run(m, events.drop_last()), events.last())
    }
}

/// One event made by a handle holder keeps the counters in agreement with the handles.
pub proof fn lemma_cell_event_wf(m: CellModel, e: CellEvent)
    requires
        cell_wf(m),
        cell_event_enabled(m, e),
    ensures
        cell_wf(cell_event(m, e)),
{
}

/// Whatever events the handle holders make, the counters agree with the live handles; so
/// the payload is destroyed at most once, and exactly when the last strong handle is gone,
/// and the allocation is freed at most once, and only when both counts are zero.
pub proof fn lemma_cell_run_wf(events: Seq<CellEvent>)
    requires
        cell_run_enabled(new_cell(), events),
    ensures
        cell_wf(cell_run(new_cell(), events)),
        cell_run(new_cell(), events).payload_drops <= 1,
        cell_run(new_cell(), events).frees <= 1,
        cell_run(new_cell(), events).frees == 1 ==> cell_run(new_cell(), events).strong == 0,
    decreases events.len(),
{
    if events.len() > 0 {
        lemma_cell_run_wf(events.drop_last());
        lemma_cell_event_wf(cell_run(new_cell(), events.drop_last()), events.last());
    }
}

/// The payload is destroyed only by the drop of the last strong handle.
pub proof fn lemma_payload_dropped_only_by_last_arc(m: CellModel, e: CellEvent)
    requires
        cell_wf(m),
        cell_event_enabled(m, e),
    ensures
        cell_event(m, e).payload_drops != m.payload_drops ==> e is DropArc && m.strong == 1
            && cell_event(m, e).strong == 0,
{
}

/// An upgrade never brings back a strong count that reached zero: it makes a strong handle
/// only while the payload is alive.
pub proof fn lemma_upgrade_never_resurrects(m: CellModel)
    requires
        cell_wf(m),
        cell_event_enabled(m, CellEvent::Upgrade),
    ensures
        m.strong == 0 ==> cell_event(m, CellEvent::Upgrade) == m,
        cell_event(m, CellEvent::Upgrade).arcs > m.arcs ==> m.payload_drops == 0
            && cell_event(m, CellEvent::Upgrade).payload_drops == 0,
{
}

/// Locking the weak count succeeds exactly when no weak handle exists; while it is locked no
/// weak handle can be made, and the strong handles' share stays the whole weak count.
pub proof fn lemma_lock_weak(m: CellModel, e: CellEvent)
    requires
        cell_wf(m),
        cell_event_enabled(m, e),
    ensures
        e is LockWeak ==> (cell_event(m, e).locked <==> m.weaks == 0),
        m.locked && !(e is UnlockWeak) ==> cell_event(m, e).locked && cell_event(m, e).weaks == 0
            && cell_event(m, e).weak == 1,
{
}

/// The uniqueness check: with the weak count locked (so found at 1), exclusive access is
/// granted exactly when the strong count read then is 1, that is when the checking handle is
/// the only handle of either kind.
pub proof fn lemma_unique_read(m: CellModel)
    requires
        cell_wf(m),
        m.locked,
    ensures
        is_unique_spec(m.strong as int, 1) <==> (m.arcs == 1 && m.weaks == 0),
{
}

/// Running two sequences of events one after the other.
pub proof fn lemma_cell_run_append(m: CellModel, a: Seq<CellEvent>, b: Seq<CellEvent>)
    ensures
        cell_run(m, a + b) == cell_run(cell_run(m, a), b),
        cell_run_enabled(m, a + b) == (cell_run_enabled(m, a) && cell_run_enabled(
            cell_run(m, a),
            b,
        )),
    decreases b.len(),
{
    if b.len() == 0 {
        assert(a + b =~= a);
    } else {
        lemma_cell_run_append(m, a, b.drop_last());
        assert((a + b).drop_last() =~= a + b.drop_last());
        assert((a + b).last() == b.last());
    }
}

/// `n` events of the same kind.
pub open spec fn repeat_event(e: CellEvent, n: nat) -> Seq<CellEvent> {
    Seq::new(n, |i: int| e)
}

/// `n` clones of a strong handle add `n` to the strong count.
pub proof fn lemma_clones(m: CellModel, n: nat)
    requires
        m.arcs > 0,
    ensures
        cell_run_enabled(m, repeat_event(CellEvent::CloneArc, n)),
        cell_run(m, repeat_event(CellEvent::CloneArc, n)) == (CellModel {
            strong: m.strong + n,
            arcs: m.arcs + n,
            ..m
        }),
    decreases n,
{
    if n > 0 {
        lemma_clones(m, (n - 1) as nat);
        assert(repeat_event(CellEvent::CloneArc, n).drop_last() =~= repeat_event(
            CellEvent::CloneArc,
            (n - 1) as nat,
        ));
    }
}

/// `n` drops of strong handles, while more than `n` are alive, take `n` from the strong
/// count and leave the payload alone.
pub proof fn lemma_drops_not_last(m: CellModel, n: nat)
    requires
        cell_wf(m),
        m.arcs > n,
    ensures
        cell_run_enabled(m, repeat_event(CellEvent::DropArc, n)),
        cell_run(m, repeat_event(CellEvent::DropArc, n)) == (CellModel {
            strong: (m.strong - n) as nat,
            arcs: (m.arcs - n) as nat,
            ..m
        }),
    decreases n,
{
    if n > 0 {
        lemma_drops_not_last(m, (n - 1) as nat);
        assert(repeat_event(CellEvent::DropArc, n).drop_last() =~= repeat_event(
            CellEvent::DropArc,
            (n - 1) as nat,
        ));
    }
}

/// A strong handle cloned `k` times, then all `k + 1` handles dropped: the payload is
/// destroyed exactly once, by the last drop and not before, and with no weak handle left the
/// allocation is freed once.
pub proof fn lemma_clone_k_then_drop_all(k: nat)
    ensures
        cell_run_enabled(
            new_cell(),
            repeat_event(CellEvent::CloneArc, k) + repeat_event(CellEvent::DropArc, k),
        ),
        cell_run(
            new_cell(),
            repeat_event(CellEvent::CloneArc, k) + repeat_event(CellEvent::DropArc, k),
        ).payload_drops == 0,
        cell_run_enabled(
            new_cell(),
            repeat_event(CellEvent::CloneArc, k) + repeat_event(CellEvent::DropArc, k + 1),
        ),
        cell_run(
            new_cell(),
            repeat_event(CellEvent::CloneArc, k) + repeat_event(CellEvent::DropArc, k + 1),
        ).payload_drops == 1,
        cell_run(
            new_cell(),
            repeat_event(CellEvent::CloneArc, k) + repeat_event(CellEvent::DropArc, k + 1),
        ).frees == 1,
{
    let clones = repeat_event(CellEvent::CloneArc, k);
    lemma_clones(new_cell(), k);
    let m1 = cell_run(new_cell(), clones);
    lemma_drops_not_last(m1, k);
    lemma_cell_run_append(new_cell(), clones, repeat_event(CellEvent::DropArc, k));
    let m2 = cell_run(m1, repeat_event(CellEvent::DropArc, k));
    let all = repeat_event(CellEvent::DropArc, k + 1);
    assert(all.drop_last() =~= repeat_event(CellEvent::DropArc, k));
    lemma_cell_run_append(new_cell(), clones, all);
    assert(cell_run(m1, all) == cell_event(m2, CellEvent::DropArc));
}

} // verus!
