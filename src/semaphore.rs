use std::sync::{Condvar, Mutex, MutexGuard, WaitTimeoutResult};
use std::time::Duration;
use vstd::prelude::*;

use crate::sync::{load, lock, store};

verus! {

/// Error code: a semaphore used before it was set up.
pub const SEM_P_V_ON_UNINIT: i32 = -1;

/// Error code: a semaphore set up twice.
pub const SEM_INIT_DOUBLE_INIT: i32 = -2;

/// Error code: a wait for a permit ran out of time.
pub const SEM_E_TIMEOUT: i32 = -3;

/// The decimal digit `d`, for `d < 10`.
pub open spec fn digit(d: nat) -> char {
    seq!['0', '1', '2', '3', '4', '5', '6', '7', '8', '9'][d as int]
}

/// `n` written in decimal, without leading zeros.
pub open spec fn decimal(n: nat) -> Seq<char>
    decreases n,
{
    if n < 10 {
        seq![digit(n)]
    } else {
        decimal(n / 10).push(digit(n % 10))
    }
}

/// `i` written in decimal, with a leading minus sign when negative.
pub open spec fn signed_decimal(i: int) -> Seq<char> {
    if i < 0 {
        seq!['-'] + decimal((-i) as nat)
    } else {
        decimal(i as nat)
    }
}

/// The message that describes an error code.
pub open spec fn message(code: i32) -> Seq<char> {
    if code == SEM_P_V_ON_UNINIT {
        "Use of uninitialized SEMAPHORE"@
    } else if code == SEM_INIT_DOUBLE_INIT {
        "Can't double init SEMAPHORE"@
    } else if code == SEM_E_TIMEOUT {
        "Semaphore wait timed out"@
    } else {
        "SyscallError code: "@ + signed_decimal(code as int)
    }
}

/// Relies on the `Display` of `i32` through `format!`: the number in decimal,
/// a minus sign first when it is negative, after the fixed prefix.
#[verifier::external_body]
fn syscall_message(code: i32) -> (r: String)
    ensures
        r@ == "SyscallError code: "@ + signed_decimal(code as int),
{
    format!("SyscallError code: {}", code)
}

/// An error of a semaphore operation, identified by its code.
#[derive(Clone, Copy, Debug, PartialEq, Eq, Structural)]
pub struct SemaphoreError {
    code: i32,
}

impl View for SemaphoreError {
    type V = i32;

    closed spec fn view(&self) -> i32 {
        self.code
    }
}

impl SemaphoreError {
    pub fn new(code: i32) -> (r: SemaphoreError)
        ensures
            r@ == code,
    {
        SemaphoreError { code }
    }

    pub fn code(&self) -> (r: i32)
        ensures
            r == self@,
    {
        self.code
    }

    pub fn is_timeout(&self) -> (r: bool)
        ensures
            r == (self@ == SEM_E_TIMEOUT),
    {
        self.code == SEM_E_TIMEOUT
    }

    pub fn msg(&self) -> (r: String)
        ensures
            r@ == message(self@),
    {
        if self.code == SEM_P_V_ON_UNINIT {
            "Use of uninitialized SEMAPHORE".to_owned()
        } else if self.code == SEM_INIT_DOUBLE_INIT {
            "Can't double init SEMAPHORE".to_owned()
        } else if self.code == SEM_E_TIMEOUT {
            "Semaphore wait timed out".to_owned()
        } else {
            syscall_message(self.code)
        }
    }
}

/// One operation on a permit counter.
pub enum PermitOp {
    Acquire,
    Release,
}

/// The count after one operation: an acquire takes a permit when there is
/// one and otherwise leaves the count alone (the caller keeps waiting or
/// times out); a release returns one.
pub open spec fn step(n: nat, op: PermitOp) -> nat {
    match op {
        PermitOp::Acquire => if n > 0 { (n - 1) as nat } else { n },
        PermitOp::Release => n + 1,
    }
}

/// The count after a run of operations, applied from left to right.
pub open spec fn replay(n: nat, ops: Seq<PermitOp>) -> nat
    decreases ops.len(),
{
    if ops.len() == 0 {
        n
    } else {
        step(replay(n, ops.drop_last()), ops.last())
    }
}

/// How many acquires of a run found a permit.
pub open spec fn granted(n: nat, ops: Seq<PermitOp>) -> nat
    decreases ops.len(),
{
    if ops.len() == 0 {
        0
    } else {
        let before = replay(n, ops.drop_last());
        granted(n, ops.drop_last()) + if ops.last() is Acquire && before > 0 {
            1nat
        } else {
            0nat
        }
    }
}

/// How many releases a run holds.
pub open spec fn releases(ops: Seq<PermitOp>) -> nat
    decreases ops.len(),
{
    if ops.len() == 0 {
        0
    } else {
        releases(ops.drop_last()) + if ops.last() is Release {
            1nat
        } else {
            0nat
        }
    }
}

/// Every release of the run is made by a holder of a permit: when it comes,
/// more permits have been granted than returned.
pub open spec fn matched(n: nat, ops: Seq<PermitOp>) -> bool
    decreases ops.len(),
{
    ops.len() == 0 || {
        &&& matched(n, ops.drop_last())
        &&& ops.last() is Release ==> granted(n, ops.drop_last()) > releases(ops.drop_last())
    }
}

/// Conservation of permits: over any run, the permits granted minus the
/// permits released equal the initial count minus the current one.
pub proof fn lemma_permits_conserved(n: nat, ops: Seq<PermitOp>)
    ensures
        granted(n, ops) - releases(ops) == n - replay(n, ops),
    decreases ops.len(),
{
    if ops.len() > 0 {
        lemma_permits_conserved(n, ops.drop_last());
    }
}

/// Exclusion: when every release is made by a holder, the number of holders
/// (permits granted and not yet returned) never exceeds the initial count. A
/// lock starts with one permit, so at most one thread holds it.
pub proof fn lemma_holders_bounded(n: nat, ops: Seq<PermitOp>)
    requires
        matched(n, ops),
    ensures
        0 <= granted(n, ops) - releases(ops) <= n,
    decreases ops.len(),
{
    lemma_permits_conserved(n, ops);
    if ops.len() > 0 {
        lemma_holders_bounded(n, ops.drop_last());
    }
}

/// The permit count of a semaphore.
#[derive(Clone, Copy, Debug)]
pub struct Permits {
    count: u64,
}

impl View for Permits {
    type V = nat;

    closed spec fn view(&self) -> nat {
        self.count as nat
    }
}

impl Permits {
    pub fn new(count: u64) -> (r: Permits)
        ensures
            r@ == count as nat,
    {
        Permits { count }
    }

    pub fn count(&self) -> (r: u64)
        ensures
            r as nat == self@,
    {
        self.count
    }

    /// Takes a permit if there is one. Returns whether the caller must keep
    /// waiting, that is, whether no permit was available.
    pub fn take_or_wait(&mut self) -> (wait: bool)
        ensures
            final(self)@ == step(old(self)@, PermitOp::Acquire),
            wait == (old(self)@ == 0),
    {
        if self.count > 0 {
            self.count = self.count - 1;
            false
        } else {
            true
        }
    }

    /// Returns one permit. At the largest count the permit cannot be
    /// represented and the count stays where it is.
    pub fn release(&mut self)
        ensures
            old(self)@ < u64::MAX ==> final(self)@ == step(old(self)@, PermitOp::Release),
            old(self)@ == u64::MAX ==> final(self)@ == old(self)@,
    {
        if self.count < u64::MAX {
            self.count = self.count + 1;
        }
    }
}

/// Relies on std::sync::Condvar::wait_while: with the mutex held it calls
/// `Permits::take_or_wait`, parks the thread while that returns true, and
/// returns once it returned false, that is once it has taken a permit.
/// Spurious wakeups only lead to another call.
#[verifier::external_body]
fn wait_for_permit<'a>(cv: &Condvar, g: MutexGuard<'a, Permits>) -> MutexGuard<'a, Permits> {
    cv.wait_while(g, Permits::take_or_wait).unwrap_or_else(std::sync::PoisonError::into_inner)
}

/// Relies on std::sync::Condvar::wait_timeout_while: as `wait_for_permit`, but
/// gives up once `timeout` has passed since the call, measured from a deadline
/// taken once on entry; the result then reports that it timed out, and in that
/// case the last call of `Permits::take_or_wait` took nothing.
#[verifier::external_body]
fn wait_for_permit_until<'a>(
    cv: &Condvar,
    g: MutexGuard<'a, Permits>,
    timeout: Duration,
) -> (MutexGuard<'a, Permits>, WaitTimeoutResult) {
    cv.wait_timeout_while(g, timeout, Permits::take_or_wait).unwrap_or_else(
        std::sync::PoisonError::into_inner,
    )
}

/// A counting semaphore.
///
/// It is shared between threads by reference (for example through an `Arc`);
/// every change of the count happens under its mutex.
#[derive(Debug)]
pub struct Semaphore {
    permits: Mutex<Permits>,
    available: Condvar,
}

impl Semaphore {
    /// A semaphore that holds `count` permits.
    pub fn new(count: i32) -> Semaphore
        requires
            count >= 0,
    {
        Semaphore { permits: Mutex::new(Permits::new(count as u64)), available: Condvar::new() }
    }

    /// Returns a permit and wakes one thread that waits for one, if any.
    ///
    /// What the count is at any moment depends on the other threads; each
    /// change of it under the mutex is a step of `Permits`.
    pub fn v(&self) {
        let mut g = lock(&self.permits);
        let mut permits = load(&g);
        permits.release();
        store(&mut g, permits);
        self.available.notify_one();
    }

    /// Takes a permit, waiting at most `duration` for one to be released.
    /// When the time runs out first it takes nothing. Returns whether a
    /// permit was taken.
    pub fn p_timeout(&self, duration: Duration) -> bool {
        let g = lock(&self.permits);
        let (_g, outcome) = wait_for_permit_until(&self.available, g, duration);
        !outcome.timed_out()
    }

    /// Takes a permit, waiting as long as it takes for one to be released.
    pub fn p(&self) {
        let g = lock(&self.permits);
        let _g = wait_for_permit(&self.available, g);
    }
}

} // verus!
