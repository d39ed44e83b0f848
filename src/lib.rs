//! Concurrency primitives with verified protocols: a blocking mutex with a condition
//! variable, on a three-state lock word and a "wait on a word" capability; and a shared
//! pointer with weak references, on a strong and a weak counter.
//!
//! Each protocol stands twice: as executable steps over the real atomics, and as a model
//! (one atomic event at a time, any interleaving) whose laws are proved here.

pub mod arc;
pub mod condvar;
pub mod lock_word;
pub mod mutex;
mod primitives;
pub mod refcount;
pub mod wait;
