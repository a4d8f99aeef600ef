use crate::spinlock::spin_loop_hint;
use vstd::prelude::*;

verus! {

/// A spin lock guarding a value.
///
/// Each method is one indivisible step on the lock's flag: `lock` is the
/// swap-to-true that takes the lock and `release` is the store of `false`
/// that the guard performs when it is dropped.
pub struct SpinLock<T> {
    locked: bool,
    value: T,
}

impl<T> SpinLock<T> {
    /// Whether the flag is set.
    pub closed spec fn is_locked(&self) -> bool {
        self.locked
    }

    /// The guarded value.
    pub closed spec fn value(&self) -> T {
        self.value
    }

    /// The state after the flag is set by a taking swap.
    pub closed spec fn after_lock(self) -> SpinLock<T> {
        SpinLock { locked: true, ..self }
    }

    /// The state after the flag is cleared.
    pub closed spec fn after_release(self) -> SpinLock<T> {
        SpinLock { locked: false, ..self }
    }

    /// A lock that is free and guards `val`.
    pub fn new(val: T) -> (lock: SpinLock<T>)
        ensures
            !lock.is_locked(),
            lock.value() == val,
    {
        SpinLock { locked: false, value: val }
    }

    /// Takes the lock: sets the flag and returns whether it was already set,
    /// that is, whether the caller found the lock held. On contention it
    /// issues one spin-wait hint and then proceeds all the same: the caller
    /// goes on to the guarded value whether or not the lock was free.
    pub fn lock(&mut self) -> (contended: bool)
        ensures
            contended == old(self).is_locked(),
            *final(self) == old(self).after_lock(),
            final(self).is_locked(),
            final(self).value() == old(self).value(),
    {
        let contended = self.locked;
        self.locked = true;
        if contended {
            spin_loop_hint();
        }
        contended
    }

    /// Frees the lock, as dropping a guard does.
    pub fn release(&mut self)
        ensures
            *final(self) == old(self).after_release(),
            !final(self).is_locked(),
            final(self).value() == old(self).value(),
    {
        self.locked = false;
    }

    /// Reads the guarded value.
    pub fn get(&self) -> (r: &T)
        ensures
            *r == self.value(),
    {
        &self.value
    }

    /// Gives write access to the guarded value; the flag is left as it is.
    pub fn get_mut(&mut self) -> (r: &mut T)
        ensures
            *r == old(self).value(),
            final(self).value() == *final(r),
            final(self).is_locked() == old(self).is_locked(),
    {
        &mut self.value
    }
}

/// Once the lock has been taken, a second taker finds it held (and is told
/// so) until the holder releases it; after the release the next taker finds
/// it free. Taking does not wait for the holder, so two takers can both go
/// on to the guarded value: exclusion rests on callers that stop when told
/// the lock is held.
pub proof fn lemma_taker_sees_holder<T>(s: SpinLock<T>)
    ensures
        s.after_lock().is_locked(),
        !s.after_lock().after_release().is_locked(),
{
}

/// Taking a free lock and releasing it gives back exactly the state it
/// started from.
pub proof fn lemma_lock_release_roundtrip<T>(s: SpinLock<T>)
    requires
        !s.is_locked(),
    ensures
        s.after_lock().after_release() == s,
{
}

} // verus!
