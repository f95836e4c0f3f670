//! The bookkeeping of a recursive lock: which thread holds it and how many
//! times. Taking and releasing the underlying exclusive lock is left to the
//! caller, which this state tells when to do it.

use vstd::prelude::*;

verus! {

/// Why a lock could not be taken.
#[derive(Clone, Copy, Debug, PartialEq, Eq)]
pub enum LockError {
    /// The underlying lock was poisoned.
    Poisoned,
    /// The recursion count would overflow.
    WouldBlockRecursive,
}

/// Why a lock could not be taken without waiting.
#[derive(Clone, Copy, Debug, PartialEq, Eq)]
pub enum TryLockError {
    /// The underlying lock was poisoned.
    Poisoned,
    /// Another thread holds the lock.
    WouldBlockExclusive,
    /// The recursion count would overflow.
    WouldBlockRecursive,
}

/// The state of a recursive lock: the thread that holds it (0 for none) and
/// how many times it holds it.
#[derive(Debug, PartialEq, Eq)]
pub struct RecursiveMutex {
    owner: usize,
    recursion: u64,
}

/// A proof of one hold of a recursive lock, handed back on release.
#[derive(Debug, PartialEq, Eq)]
pub struct RecursiveMutexGuard {
    depth: u64,
}

/// Abstract value of a [`RecursiveMutex`].
pub struct MutexView {
    pub owner: usize,
    pub recursion: u64,
}

impl View for RecursiveMutex {
    type V = MutexView;

    closed spec fn view(&self) -> MutexView {
        MutexView { owner: self.owner, recursion: self.recursion }
    }
}

impl RecursiveMutexGuard {
    /// The number of holds, this one included, when it was taken.
    pub closed spec fn spec_depth(&self) -> u64 {
        self.depth
    }
}

/// The state after thread `tid` holds the lock once more: it becomes the
/// owner if it was not, and the count grows by one.
pub open spec fn entered(s: MutexView, tid: usize) -> MutexView {
    MutexView { owner: tid, recursion: (s.recursion + 1) as u64 }
}

/// The state after one hold is released: the count shrinks by one, and the
/// lock has no owner once it reaches zero.
pub open spec fn exited(s: MutexView) -> MutexView {
    if s.recursion == 1 {
        MutexView { owner: 0, recursion: 0 }
    } else {
        MutexView { owner: s.owner, recursion: (s.recursion - 1) as u64 }
    }
}

/// What thread `tid` trying the lock without waiting gives, with `outer`
/// what trying the underlying exclusive lock gave: the new state, and the
/// depth of the hold taken or the error.
pub open spec fn spec_try_lock(s: MutexView, tid: usize, outer: Result<(), TryLockError>) -> (MutexView, Result<u64, TryLockError>) {
    if s.owner != tid && outer is Err {
        (s, Err(outer->Err_0))
    } else if s.recursion == u64::MAX {
        (MutexView { owner: tid, ..s }, Err(TryLockError::WouldBlockRecursive))
    } else {
        (entered(s, tid), Ok((s.recursion + 1) as u64))
    }
}

impl RecursiveMutex {
    /// A lock that no thread holds.
    pub fn new() -> (r: Self)
        ensures
            r@ == (MutexView { owner: 0, recursion: 0 }),
    {
        RecursiveMutex { owner: 0, recursion: 0 }
    }

    /// Whether thread `tid` holds the lock (else it has to take the
    /// underlying exclusive lock first).
    pub fn is_same_thread(&self, tid: usize) -> (r: bool)
        ensures
            r == (self@.owner == tid),
    {
        self.owner == tid
    }

    fn check_recursion(&mut self, tid: usize) -> (r: Option<RecursiveMutexGuard>)
        ensures
            old(self)@.recursion < u64::MAX ==> (final(self)@ == entered(old(self)@, tid)
                && (r matches Some(g) && g.spec_depth() == final(self)@.recursion)),
            old(self)@.recursion == u64::MAX ==> (r is None && final(self)@ == (MutexView { owner: tid, ..old(self)@ })),
    {
        self.owner = tid;
        match self.recursion.checked_add(1) {
            Some(n) => {
                self.recursion = n;
                Some(RecursiveMutexGuard { depth: n })
            },
            None => None,
        }
    }

    /// Thread `tid` takes the lock. `outer` is what taking the underlying
    /// exclusive lock gave; it is consulted only when the thread does not
    /// hold the lock already.
    pub fn lock(&mut self, tid: usize, outer: Result<(), LockError>) -> (r: Result<RecursiveMutexGuard, LockError>)
        requires
            tid != 0,
        ensures
            old(self)@.owner != tid && outer is Err ==> (r == Err::<RecursiveMutexGuard, LockError>(outer->Err_0)
                && final(self)@ == old(self)@),
            (old(self)@.owner == tid || outer is Ok) && old(self)@.recursion < u64::MAX ==> (
                final(self)@ == entered(old(self)@, tid) && (r matches Ok(g) && g.spec_depth() == final(self)@.recursion)),
            (old(self)@.owner == tid || outer is Ok) && old(self)@.recursion == u64::MAX ==> (
                r == Err::<RecursiveMutexGuard, LockError>(LockError::WouldBlockRecursive)
                && final(self)@ == (MutexView { owner: tid, ..old(self)@ })),
    {
        if self.owner != tid {
            match outer {
                Ok(()) => {},
                Err(e) => {
                    return Err(e);
                },
            }
        }
        match self.check_recursion(tid) {
            Some(g) => Ok(g),
            None => Err(LockError::WouldBlockRecursive),
        }
    }

    /// Thread `tid` takes the lock without waiting. `outer` is what trying the
    /// underlying exclusive lock gave; it is consulted only when the thread
    /// does not hold the lock already.
    pub fn try_lock(&mut self, tid: usize, outer: Result<(), TryLockError>) -> (r: Result<RecursiveMutexGuard, TryLockError>)
        requires
            tid != 0,
        ensures
            (final(self)@, match r {
                Ok(g) => Ok::<u64, TryLockError>(g.spec_depth()),
                Err(e) => Err(e),
            }) == spec_try_lock(old(self)@, tid, outer),
            old(self)@.owner != tid && outer is Err ==> (r == Err::<RecursiveMutexGuard, TryLockError>(outer->Err_0)
                && final(self)@ == old(self)@),
            (old(self)@.owner == tid || outer is Ok) && old(self)@.recursion < u64::MAX ==> (
                final(self)@ == entered(old(self)@, tid) && (r matches Ok(g) && g.spec_depth() == final(self)@.recursion)),
            (old(self)@.owner == tid || outer is Ok) && old(self)@.recursion == u64::MAX ==> (
                r == Err::<RecursiveMutexGuard, TryLockError>(TryLockError::WouldBlockRecursive)
                && final(self)@ == (MutexView { owner: tid, ..old(self)@ })),
    {
        if self.owner != tid {
            match outer {
                Ok(()) => {},
                Err(e) => {
                    return Err(e);
                },
            }
        }
        match self.check_recursion(tid) {
            Some(g) => Ok(g),
            None => Err(TryLockError::WouldBlockRecursive),
        }
    }

    /// Releases one hold; the result says whether the lock is now free (and
    /// the underlying exclusive lock has to be released).
    pub fn unlock(&mut self, guard: RecursiveMutexGuard) -> (r: bool)
        requires
            old(self)@.recursion > 0,
        ensures
            final(self)@ == exited(old(self)@),
            r == (old(self)@.recursion == 1),
    {
        self.recursion = self.recursion - 1;
        if self.recursion == 0 {
            self.owner = 0;
            true
        } else {
            false
        }
    }

    /// How many times the lock is held.
    pub fn recursion(&self) -> (r: u64)
        ensures
            r == self@.recursion,
    {
        self.recursion
    }

    /// The thread that holds the lock (0 for none).
    pub fn owner(&self) -> (r: usize)
        ensures
            r == self@.owner,
    {
        self.owner
    }
}

/// The state after `n` holds by thread `tid`.
pub open spec fn entered_n(s: MutexView, tid: usize, n: nat) -> MutexView
    decreases n,
{
    if n == 0 {
        s
    } else {
        entered(entered_n(s, tid, (n - 1) as nat), tid)
    }
}

/// The state after `n` releases.
pub open spec fn exited_n(s: MutexView, n: nat) -> MutexView
    decreases n,
{
    if n == 0 {
        s
    } else {
        exited(exited_n(s, (n - 1) as nat))
    }
}

proof fn lemma_entered_n(tid: usize, n: nat)
    requires
        n <= u64::MAX,
    ensures
        entered_n(MutexView { owner: 0, recursion: 0 }, tid, n) == (if n == 0 {
            MutexView { owner: 0, recursion: 0 }
        } else {
            MutexView { owner: tid, recursion: n as u64 }
        }),
    decreases n,
{
    if n > 0 {
        lemma_entered_n(tid, (n - 1) as nat);
    }
}

proof fn lemma_exited_n(tid: usize, k: nat, n: nat)
    requires
        0 < k <= u64::MAX,
        n <= k,
    ensures
        exited_n(MutexView { owner: tid, recursion: k as u64 }, n) == (if n == k {
            MutexView { owner: 0, recursion: 0 }
        } else {
            MutexView { owner: tid, recursion: (k - n) as u64 }
        }),
    decreases n,
{
    if n > 0 {
        lemma_exited_n(tid, k, (n - 1) as nat);
    }
}

/// A thread that takes a free lock `n` times and releases it `n` times
/// leaves it free again; in between it owns the lock with a count of `n`.
pub proof fn lock_unlock_balance(tid: usize, n: nat)
    requires
        tid != 0,
        0 < n <= u64::MAX,
    ensures
        entered_n(MutexView { owner: 0, recursion: 0 }, tid, n) == (MutexView { owner: tid, recursion: n as u64 }),
        exited_n(entered_n(MutexView { owner: 0, recursion: 0 }, tid, n), n) == (MutexView { owner: 0, recursion: 0 }),
{
    lemma_entered_n(tid, n);
    lemma_exited_n(tid, n, n);
}

/// While thread `a` holds the lock, another thread `b` trying it without
/// waiting is refused with the underlying lock's answer and changes
/// nothing, and gets it only when the underlying exclusive lock lets it;
/// `a` itself takes it once more, one level deeper, whatever the underlying
/// lock would answer. The lock has one owner at a time: a successful try
/// makes the caller the owner.
pub proof fn try_lock_while_held(s: MutexView, a: usize, b: usize, outer: Result<(), TryLockError>)
    requires
        a != 0,
        b != 0,
        a != b,
        s.owner == a,
        0 < s.recursion < u64::MAX,
    ensures
        spec_try_lock(s, b, Err(TryLockError::WouldBlockExclusive))
            == (s, Err::<u64, TryLockError>(TryLockError::WouldBlockExclusive)),
        spec_try_lock(s, b, outer).1 is Ok ==> outer is Ok,
        spec_try_lock(s, a, outer) == (entered(s, a), Ok::<u64, TryLockError>((s.recursion + 1) as u64)),
        spec_try_lock(s, a, outer).0.recursion == s.recursion + 1,
        spec_try_lock(s, b, outer).1 is Ok ==> spec_try_lock(s, b, outer).0.owner == b,
{
}

} // verus!
