use std::time::{Duration, Instant};

use classic_sync::cyclic_barrier::{BarrierState, BarrierWaitResult, CyclicBarrier};
use classic_sync::lock::ReentrantLock;
use classic_sync::semaphore::{
    Permits, Semaphore, SemaphoreError, SEM_E_TIMEOUT, SEM_INIT_DOUBLE_INIT, SEM_P_V_ON_UNINIT,
};

#[test]
fn it_works() {
    assert_eq!(4, 4);
}

#[test]
fn take_or_wait_takes_only_what_is_there() {
    let mut p = Permits::new(2);
    assert!(!p.take_or_wait());
    assert_eq!(p.count(), 1);
    assert!(!p.take_or_wait());
    assert_eq!(p.count(), 0);
    assert!(p.take_or_wait());
    assert_eq!(p.count(), 0);
}

#[test]
fn release_adds_one_and_stops_at_the_top() {
    let mut p = Permits::new(0);
    p.release();
    assert_eq!(p.count(), 1);
    let mut full = Permits::new(u64::MAX);
    full.release();
    assert_eq!(full.count(), u64::MAX);
}

#[test]
fn permits_conserved_over_a_run() {
    // granted - released == initial - current
    let initial: u64 = 2;
    let mut p = Permits::new(initial);
    let mut granted: u64 = 0;
    let mut released: u64 = 0;
    for op in [true, true, true, false, true, false, false, true] {
        if op {
            if !p.take_or_wait() {
                granted += 1;
            }
        } else {
            p.release();
            released += 1;
        }
    }
    assert_eq!(granted, 4);
    assert_eq!(released, 3);
    assert_eq!(p.count(), 1);
    assert_eq!(granted as i64 - released as i64, initial as i64 - p.count() as i64);
}

#[test]
fn semaphore_of_three_admits_three() {
    let sem = Semaphore::new(3);
    let short = Duration::from_millis(10);
    assert!(sem.p_timeout(short));
    assert!(sem.p_timeout(short));
    assert!(sem.p_timeout(short));
    assert!(!sem.p_timeout(short));
    sem.v();
    assert!(sem.p_timeout(short));
    assert!(!sem.p_timeout(short));
}

#[test]
fn acquire_returns_at_once_with_a_permit() {
    let sem = Semaphore::new(1);
    sem.p();
    assert!(!sem.p_timeout(Duration::from_millis(5)));
    sem.v();
    sem.p();
    sem.v();
    assert!(sem.p_timeout(Duration::from_millis(5)));
}

#[test]
fn timed_acquire_gives_up_after_its_timeout() {
    let sem = Semaphore::new(0);
    let start = Instant::now();
    assert!(!sem.p_timeout(Duration::from_millis(100)));
    let elapsed = start.elapsed();
    assert!(elapsed >= Duration::from_millis(100));
    assert!(elapsed < Duration::from_millis(2000));
}

#[test]
fn zero_timeout_on_empty_semaphore_times_out() {
    let sem = Semaphore::new(0);
    assert!(!sem.p_timeout(Duration::from_millis(0)));
    sem.v();
    assert!(sem.p_timeout(Duration::from_millis(0)));
}

#[test]
fn lock_excludes_until_unlocked() {
    let lock = ReentrantLock::new();
    let short = Duration::from_millis(10);
    assert!(lock.try_lock(short));
    assert!(!lock.try_lock(short));
    lock.unlock();
    lock.lock();
    assert!(!lock.try_lock(short));
    lock.unlock();
    assert!(lock.try_lock(short));
}

#[test]
fn lock_around_increments_counts_each_once() {
    let lock = ReentrantLock::new();
    let mut counter: u32 = 0;
    for _ in 0..50 {
        lock.lock();
        counter += 1;
        lock.unlock();
    }
    assert_eq!(counter, 50);
    assert!(lock.try_lock(Duration::from_millis(1)));
}

#[test]
fn extra_unlock_lets_two_in() {
    let lock = ReentrantLock::new();
    lock.unlock();
    let short = Duration::from_millis(5);
    assert!(lock.try_lock(short));
    assert!(lock.try_lock(short));
    assert!(!lock.try_lock(short));
}

#[test]
fn barrier_state_round_pattern() {
    let s = BarrierState::new(3);
    assert_eq!(s.generation(), 0);
    let (s, t1) = s.arrive();
    assert!(!t1);
    assert!(s.in_round(0));
    let (s, t2) = s.arrive();
    assert!(!t2);
    assert!(s.in_round(0));
    let (s, t3) = s.arrive();
    assert!(t3);
    assert_eq!(s.generation(), 1);
    assert!(!s.in_round(0));
}

#[test]
fn barrier_state_second_round_repeats() {
    let mut s = BarrierState::new(3);
    let mut pattern = Vec::new();
    for _ in 0..6 {
        let (next, triggered) = s.arrive();
        pattern.push(triggered);
        s = next;
        if pattern.len() == 4 || pattern.len() == 5 {
            // arrivals of the second round are not released by the first
            assert!(s.in_round(1));
        }
    }
    assert_eq!(pattern, vec![false, false, true, false, false, true]);
    assert_eq!(s.generation(), 2);
    assert!(!s.in_round(1));
}

#[test]
fn barrier_of_one_triggers_every_time() {
    let b = CyclicBarrier::new(1);
    assert_eq!(b.wait(), BarrierWaitResult::Triggered);
    assert_eq!(b.wait(), BarrierWaitResult::Triggered);
}

#[test]
fn error_codes_and_messages() {
    let t = SemaphoreError::new(SEM_E_TIMEOUT);
    assert!(t.is_timeout());
    assert_eq!(t.code(), SEM_E_TIMEOUT);
    assert_eq!(t.msg(), "Semaphore wait timed out");
    let u = SemaphoreError::new(SEM_P_V_ON_UNINIT);
    assert!(!u.is_timeout());
    assert_eq!(u.msg(), "Use of uninitialized SEMAPHORE");
    let d = SemaphoreError::new(SEM_INIT_DOUBLE_INIT);
    assert_eq!(d.msg(), "Can't double init SEMAPHORE");
    assert_eq!(SemaphoreError::new(22).msg(), "SyscallError code: 22");
    assert_eq!(SemaphoreError::new(-110).msg(), "SyscallError code: -110");
    assert_eq!(SemaphoreError::new(0).msg(), "SyscallError code: 0");
}
