//! Thread synchronisation primitives: a counting semaphore, a lock built on
//! it, and a cyclic barrier.
//!
//! Each primitive keeps its shared state behind a mutex and parks waiting
//! threads on a condition variable. The decisions taken under the mutex are
//! the small state machines `Permits` and `BarrierState`, whose steps are
//! specified exactly and whose laws are proved here.
pub mod cyclic_barrier;
pub mod lock;
pub mod semaphore;
mod sync;
