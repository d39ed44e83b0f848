use std::sync::atomic::AtomicU32;
use vstd::prelude::*;
use crate::primitives::spin_hint;

verus! {

/// Blocking on a 32-bit word until its value changes, and waking threads blocked on it.
///
/// `wait` may return at any time, also when nobody woke it: callers re-check what they
/// wait for. Waking a word that nobody waits on does nothing.
pub trait WordWaiter {
    /// Blocks the calling thread only if `word` still equals `expected`.
    fn wait(&self, word: &AtomicU32, expected: u32);

    /// Makes one thread blocked on `word` runnable.
    fn wake_one(&self, word: &AtomicU32);

    /// Makes every thread blocked on `word` runnable.
    fn wake_all(&self, word: &AtomicU32);
}

/// The degenerate waiter: it never blocks, so the callers' loops spin.
#[derive(Clone, Copy, Debug)]
pub struct SpinWaiter;

impl WordWaiter for SpinWaiter {
    fn wait(&self, _word: &AtomicU32, _expected: u32) {
        spin_hint();
    }

    fn wake_one(&self, _word: &AtomicU32) {
    }

    fn wake_all(&self, _word: &AtomicU32) {
    }
}

} // verus!
