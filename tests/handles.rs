use std::collections::VecDeque;
use sync_core::arc::{Arc, Downgrade, Upgrade, Weak};
use sync_core::condvar::Condvar;
use sync_core::lock_word::{LockPhase, SPIN_LIMIT};
use sync_core::mutex::Mutex;
use sync_core::wait::SpinWaiter;

fn drop_strong(a: Arc<u64>) -> bool {
    match Arc::release(a).result {
        Some(group) => {
            group.release();
            true
        }
        None => false,
    }
}

fn weak_of(a: &Arc<u64>) -> Weak<u64> {
    match Arc::downgrade(a).outcome {
        Downgrade::Downgraded(w) => w,
        _ => panic!("the weak count is far from the bound and not locked"),
    }
}

#[test]
fn uncontended_lock_and_unlock() {
    let m = Mutex::new(5u32, SpinWaiter);
    let g = m.lock().guard.expect("a free mutex is acquired");
    assert!(std::ptr::eq(g.mutex(), &m));
    let released = g.unlock();
    assert_eq!((released.previous, released.woke), (1, false));
    let g = m.lock().guard.expect("released mutex is acquired again");
    assert!(!g.unlock().woke);
}

#[test]
fn held_lock_is_not_taken_again() {
    let m = Mutex::new(0u8, SpinWaiter);
    let g = m.lock().guard.expect("a free mutex is acquired");
    assert!(m.advance(LockPhase::Fast).outcome.is_err());
    assert!(m.advance(LockPhase::Retry).outcome.is_err());
    let step = m.advance(LockPhase::Spin(0));
    assert_eq!(step.observed, 1);
    assert_eq!(step.outcome.err(), Some(LockPhase::Spin(1)));
    assert_eq!(m.advance(LockPhase::Spin(SPIN_LIMIT)).outcome.err(), Some(LockPhase::Retry));
    assert_eq!(m.advance(LockPhase::Contend).outcome.err(), Some(LockPhase::Park));
    assert_eq!(m.advance(LockPhase::Park).outcome.err(), Some(LockPhase::Contend));
    // The contended swap marked the word: the release must wake someone.
    assert!(g.unlock().woke);
    let g = m.lock().guard.expect("released mutex is acquired again");
    assert!(!g.unlock().woke);
}

#[test]
fn contended_path_acquires_free_word() {
    let m = Mutex::new((), SpinWaiter);
    let g = m.advance(LockPhase::Contend).outcome.ok().expect("a free word is taken by the swap");
    // Taken by the contended swap, the word says that waiters may exist.
    assert!(g.unlock().woke);
    assert!(m.advance(LockPhase::Retry).outcome.ok().expect("free again").unlock().woke == false);
}

#[test]
fn condvar_wait_relocks_the_mutex() {
    let m = Mutex::new(1i32, SpinWaiter);
    let cv = Condvar::new(SpinWaiter);
    let g = m.lock().guard.expect("free");
    cv.notify_one();
    let g = cv.wait(g).guard.expect("the mutex is locked again");
    assert!(std::ptr::eq(g.mutex(), &m));
    assert!(m.advance(LockPhase::Fast).outcome.is_err());
    cv.notify_all();
    assert!(!g.unlock().woke);
}

#[test]
fn producers_and_consumers_through_queue() {
    let m = Mutex::new((), SpinWaiter);
    let cv = Condvar::new(SpinWaiter);
    let mut queue: VecDeque<u32> = VecDeque::new();
    let mut next = [0u32; 4];
    let mut seen = vec![false; 4000];
    let mut received = 0usize;
    while received < 4000 {
        for p in 0..4 {
            if next[p] < 1000 {
                let g = m.lock().guard.expect("free");
                queue.push_back(p as u32 * 1000 + next[p]);
                next[p] += 1;
                g.unlock();
                cv.notify_one();
            }
        }
        for _ in 0..4 {
            let mut g = m.lock().guard.expect("free");
            while queue.is_empty() && received < 4000 && next.iter().all(|n| *n == 1000) {
                g = cv.wait(g).guard.expect("free");
            }
            if let Some(v) = queue.pop_front() {
                assert!(!seen[v as usize]);
                seen[v as usize] = true;
                received += 1;
            }
            g.unlock();
        }
    }
    assert!(seen.iter().all(|s| *s));
    assert!(queue.is_empty());
}

#[test]
fn get_mut_needs_the_only_handle() {
    let mut a = Arc::new(0u64);
    let b = Arc::try_clone(&a).result.expect("far from the bound");
    assert!(!Arc::is_unique(&mut a).unique);
    assert!(!drop_strong(b));
    assert!(Arc::is_unique(&mut a).unique);
    let w = weak_of(&a);
    assert!(!Arc::is_unique(&mut a).unique);
    assert!(!w.release().result);
    assert!(Arc::is_unique(&mut a).unique);
    assert!(drop_strong(a));
}

#[test]
fn payload_goes_with_the_last_of_k_clones() {
    let k = 10;
    let a = Arc::new(7u64);
    let mut clones = Vec::new();
    for _ in 0..k {
        clones.push(Arc::try_clone(&a).result.expect("far from the bound"));
    }
    let mut lasts = 0;
    for c in clones {
        if drop_strong(c) {
            lasts += 1;
        }
    }
    assert_eq!(lasts, 0);
    assert!(drop_strong(a));
}

#[test]
fn last_release_hands_back_group_share() {
    let a = Arc::new(3u64);
    let w = weak_of(&a);
    let group = Arc::release(a).result.expect("the only strong handle is the last");
    assert!(!group.release().result);
    assert!(w.release().result);
}

#[test]
fn upgrade_while_alive_and_after() {
    let a = Arc::new(11u64);
    let w = weak_of(&a);
    assert_eq!(w.strong_count(), 1);
    let b = match w.upgrade().outcome {
        Upgrade::Upgraded(b) => b,
        _ => panic!("the payload is alive"),
    };
    assert_eq!(w.strong_count(), 2);
    assert!(!drop_strong(b));
    assert!(drop_strong(a));
    assert_eq!(w.strong_count(), 0);
    assert!(matches!(w.upgrade().outcome, Upgrade::Gone));
    assert!(w.release().result);
}

#[test]
fn upgrade_from_stale_count_is_refused() {
    let a = Arc::new(1u64);
    let w: Weak<u64> = weak_of(&a);
    assert!(matches!(w.upgrade_from(5), Upgrade::Changed(1)));
    assert!(matches!(w.upgrade_from(0), Upgrade::Gone));
    assert!(matches!(w.upgrade_from(usize::MAX), Upgrade::Overflow));
    assert_eq!(w.strong_count(), 1);
    let w2 = w.try_clone().result.expect("far from the bound");
    assert!(!w2.release().result);
    assert!(!w.release().result);
    assert!(drop_strong(a));
}

#[test]
fn unlocked_after_cycles() {
    let m = Mutex::new(0u8, SpinWaiter);
    for _ in 0..3 {
        let g = m.lock().guard.expect("free");
        assert!(m.advance(LockPhase::Contend).outcome.is_err());
        assert!(g.unlock().woke);
        let g = m.advance(LockPhase::Fast).outcome.ok().expect("no guard is outstanding");
        assert!(!g.unlock().woke);
    }
    let g = m.advance(LockPhase::Fast).outcome.ok().expect("no guard is outstanding");
    assert!(!g.unlock().woke);
}

#[test]
fn interleaved_increments_are_not_lost() {
    // Threads are simulated by stepping each one's acquisition in turn; the counter is
    // touched only while that thread holds a guard.
    let m = Mutex::new((), SpinWaiter);
    let mut counter = 0u32;
    let threads = 4;
    let per_thread = 50;
    let mut done = vec![0u32; threads];
    let mut phases = vec![LockPhase::Fast; threads];
    let mut holder: Option<(usize, sync_core::mutex::Guard<'_, (), SpinWaiter>, u32)> = None;
    while done.iter().any(|d| *d < per_thread) {
        for t in 0..threads {
            if done[t] == per_thread {
                continue;
            }
            if let Some((h, g, read)) = holder.take() {
                if h == t {
                    counter = read + 1;
                    done[t] += 1;
                    g.unlock();
                    phases[t] = LockPhase::Fast;
                    continue;
                }
                holder = Some((h, g, read));
            }
            match m.advance(phases[t]).outcome {
                Ok(g) => {
                    assert!(holder.is_none());
                    holder = Some((t, g, counter));
                }
                Err(next) => phases[t] = next,
            }
        }
    }
    assert!(holder.is_none());
    assert_eq!(counter, threads as u32 * per_thread);
}

#[test]
fn uniqueness_check_reports_its_reads() {
    let mut a = Arc::new(0u64);
    let check = Arc::is_unique(&mut a);
    assert_eq!((check.weak_seen, check.strong_seen, check.unique), (1, 1, true));
    let b = Arc::try_clone(&a).result.expect("far from the bound");
    let check = Arc::is_unique(&mut a);
    assert_eq!((check.weak_seen, check.strong_seen, check.unique), (1, 2, false));
    let w = weak_of(&a);
    let check = Arc::is_unique(&mut a);
    assert_eq!((check.weak_seen, check.strong_seen, check.unique), (2, 2, false));
    assert!(!w.release().result);
    assert!(!drop_strong(b));
    // The weak count was restored after each check: a downgrade goes through at once.
    let w = weak_of(&a);
    assert!(!w.release().result);
    assert!(drop_strong(a));
}

#[test]
fn downgrade_from_locked_or_stale_count() {
    let a = Arc::new(5u64);
    assert!(matches!(Arc::downgrade_from(&a, usize::MAX), Downgrade::Locked));
    assert!(matches!(Arc::downgrade_from(&a, usize::MAX / 2 + 1), Downgrade::Overflow));
    assert!(matches!(Arc::downgrade_from(&a, 3), Downgrade::Changed(1)));
    let w = match Arc::downgrade_from(&a, 1) {
        Downgrade::Downgraded(w) => w,
        _ => panic!("the weak count read 1"),
    };
    assert!(!w.release().result);
    assert!(drop_strong(a));
}

#[test]
fn fast_phase_reports_the_word_it_found() {
    let m = Mutex::new(0u8, SpinWaiter);
    let step = m.advance(LockPhase::Fast);
    assert_eq!(step.observed, 0);
    let g = step.outcome.ok().expect("free");
    let again = m.advance(LockPhase::Contend);
    assert_eq!(again.observed, 1);
    assert_eq!(again.outcome.err(), Some(LockPhase::Park));
    assert!(g.unlock().woke);
}

#[test]
fn counts_read_by_clone_and_release() {
    let a = Arc::new(4u64);
    let b = Arc::try_clone(&a);
    assert_eq!(b.previous, 1);
    let b = b.result.expect("far from the bound");
    let w = weak_of(&a);
    let w2 = w.try_clone();
    assert_eq!(w2.previous, 2);
    let w2 = w2.result.expect("far from the bound");
    let r = Arc::release(b);
    assert_eq!(r.previous, 2);
    assert!(r.result.is_none());
    let r = w2.release();
    assert_eq!((r.previous, r.result), (3, false));
    let r = Arc::release(a);
    assert_eq!(r.previous, 1);
    let group = r.result.expect("the last strong handle");
    let r = group.release();
    assert_eq!((r.previous, r.result), (2, false));
    let r = w.release();
    assert_eq!((r.previous, r.result), (1, true));
}

#[test]
fn retried_operations_report_their_attempts() {
    let a = Arc::new(8u64);
    let d = Arc::downgrade(&a);
    assert_eq!((d.observed, d.attempts), (1, 1));
    let w = match d.outcome {
        Downgrade::Downgraded(w) => w,
        _ => panic!("not locked, far from the bound"),
    };
    let u = w.upgrade();
    assert_eq!((u.observed, u.attempts), (1, 1));
    let b = match u.outcome {
        Upgrade::Upgraded(b) => b,
        _ => panic!("the payload is alive"),
    };
    assert!(!drop_strong(b));
    assert!(drop_strong(a));
    let u = w.upgrade();
    assert_eq!((u.observed, u.attempts), (0, 1));
    assert!(matches!(u.outcome, Upgrade::Gone));
    assert!(w.release().result);
}

#[test]
fn uncontended_lock_takes_one_round() {
    let m = Mutex::new(3u16, SpinWaiter);
    let r = m.lock();
    assert_eq!((r.first_observed, r.rounds), (0, 1));
    assert!(std::ptr::eq(r.mutex, &m));
    let g = r.guard.expect("free");
    // From a held word, a park step reports the value it blocked on.
    let park = m.advance(LockPhase::Park);
    assert_eq!(park.observed, 2);
    assert!(!g.unlock().woke);
}
