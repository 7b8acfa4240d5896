use std::time::Duration;
use vstd::prelude::*;

use crate::semaphore::Semaphore;

verus! {

/// A lock: a semaphore with one permit.
///
/// Despite its name it is not reentrant and does not track its owner: a
/// thread that locks it twice without unlocking blocks itself for good, and
/// any thread may unlock it. Unlocking more often than locking leaves it with
/// more than one permit, and then it no longer excludes.
#[derive(Debug)]
pub struct ReentrantLock {
    sem: Semaphore,
}

impl ReentrantLock {
    /// An unlocked lock.
    pub fn new() -> ReentrantLock {
        let sem = Semaphore::new(1);
        ReentrantLock { sem }
    }

    /// Takes the lock, waiting as long as it takes.
    pub fn lock(&self) {
        self.sem.p();
    }

    /// Gives the lock back.
    pub fn unlock(&self) {
        self.sem.v();
    }

    /// Takes the lock unless `timeout` passes first. Returns whether it was
    /// taken.
    pub fn try_lock(&self, timeout: Duration) -> bool {
        self.sem.p_timeout(timeout)
    }
}

} // verus!
