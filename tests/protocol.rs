use sync_core::lock_word::{
    lock_step, must_wake_after_release, op_of, LockPhase, LockStep, WordOp, LOCKED,
    LOCKED_WITH_WAITERS, SPIN_LIMIT, UNLOCKED,
};
use sync_core::refcount::{
    downgrade_step, increment_overflows, is_last_release, is_unique, upgrade_step, DowngradeStep,
    UpgradeStep, MAX_REFCOUNT, WEAK_LOCKED,
};

#[test]
fn fast_path_takes_free_word() {
    assert_eq!(lock_step(LockPhase::Fast, UNLOCKED), LockStep::Acquired);
    assert_eq!(op_of(LockPhase::Fast), WordOp::TakeIfFree);
}

#[test]
fn fast_path_failure_starts_spinning() {
    assert_eq!(lock_step(LockPhase::Fast, LOCKED), LockStep::Continue(LockPhase::Spin(0)));
    assert_eq!(
        lock_step(LockPhase::Fast, LOCKED_WITH_WAITERS),
        LockStep::Continue(LockPhase::Spin(0))
    );
}

#[test]
fn spin_continues_while_locked_and_under_bound() {
    assert_eq!(lock_step(LockPhase::Spin(0), LOCKED), LockStep::Continue(LockPhase::Spin(1)));
    assert_eq!(lock_step(LockPhase::Spin(41), LOCKED), LockStep::Continue(LockPhase::Spin(42)));
    assert_eq!(op_of(LockPhase::Spin(3)), WordOp::Read);
}

#[test]
fn spin_stops_at_bound() {
    assert_eq!(lock_step(LockPhase::Spin(SPIN_LIMIT), LOCKED), LockStep::Continue(LockPhase::Retry));
    assert_eq!(SPIN_LIMIT, 100);
}

#[test]
fn spin_stops_when_word_changes() {
    assert_eq!(lock_step(LockPhase::Spin(5), UNLOCKED), LockStep::Continue(LockPhase::Retry));
    assert_eq!(
        lock_step(LockPhase::Spin(5), LOCKED_WITH_WAITERS),
        LockStep::Continue(LockPhase::Retry)
    );
}

#[test]
fn retry_then_contend_then_park() {
    assert_eq!(lock_step(LockPhase::Retry, UNLOCKED), LockStep::Acquired);
    assert_eq!(lock_step(LockPhase::Retry, LOCKED), LockStep::Continue(LockPhase::Contend));
    assert_eq!(lock_step(LockPhase::Contend, UNLOCKED), LockStep::Acquired);
    assert_eq!(lock_step(LockPhase::Contend, LOCKED), LockStep::Continue(LockPhase::Park));
    assert_eq!(
        lock_step(LockPhase::Contend, LOCKED_WITH_WAITERS),
        LockStep::Continue(LockPhase::Park)
    );
    assert_eq!(lock_step(LockPhase::Park, 7), LockStep::Continue(LockPhase::Contend));
    assert_eq!(op_of(LockPhase::Contend), WordOp::MarkContended);
    assert_eq!(op_of(LockPhase::Park), WordOp::Block);
}

#[test]
fn release_wakes_only_with_waiters() {
    assert!(must_wake_after_release(LOCKED_WITH_WAITERS));
    assert!(!must_wake_after_release(LOCKED));
    assert!(!must_wake_after_release(UNLOCKED));
}

#[test]
fn lock_state_values() {
    assert_eq!((UNLOCKED, LOCKED, LOCKED_WITH_WAITERS), (0, 1, 2));
}

#[test]
fn increment_bound() {
    assert_eq!(MAX_REFCOUNT, usize::MAX / 2);
    assert!(!increment_overflows(1));
    assert!(!increment_overflows(MAX_REFCOUNT));
    assert!(increment_overflows(MAX_REFCOUNT + 1));
    assert!(increment_overflows(usize::MAX));
}

#[test]
fn last_release_is_from_one() {
    assert!(is_last_release(1));
    assert!(!is_last_release(2));
    assert!(!is_last_release(0));
}

#[test]
fn upgrade_steps() {
    assert_eq!(upgrade_step(0), UpgradeStep::Gone);
    assert_eq!(upgrade_step(1), UpgradeStep::Attempt(2));
    assert_eq!(upgrade_step(9), UpgradeStep::Attempt(10));
    assert_eq!(upgrade_step(MAX_REFCOUNT), UpgradeStep::Attempt(MAX_REFCOUNT + 1));
    assert_eq!(upgrade_step(MAX_REFCOUNT + 1), UpgradeStep::Overflow);
    assert_eq!(upgrade_step(usize::MAX), UpgradeStep::Overflow);
}

#[test]
fn uniqueness_needs_both_counts_at_one() {
    assert!(is_unique(1, 1));
    assert!(!is_unique(2, 1));
    assert!(!is_unique(1, 2));
    assert!(!is_unique(0, 1));
}

#[test]
fn downgrade_steps() {
    assert_eq!(WEAK_LOCKED, usize::MAX);
    assert_eq!(downgrade_step(1), DowngradeStep::Attempt(2));
    assert_eq!(downgrade_step(MAX_REFCOUNT), DowngradeStep::Attempt(MAX_REFCOUNT + 1));
    assert_eq!(downgrade_step(MAX_REFCOUNT + 1), DowngradeStep::Overflow);
    assert_eq!(downgrade_step(WEAK_LOCKED), DowngradeStep::Locked);
}
