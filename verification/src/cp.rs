use vstd::prelude::*;

verus! {

/// The flag after `n` flips from `start`.
pub open spec fn flipped(start: bool, n: nat) -> bool
    decreases n,
{
    if n == 0 {
        start
    } else {
        !flipped(start, (n - 1) as nat)
    }
}

/// A notifying thread's step: flips the shared flag and says whether to
/// notify a waiter, which it does when the flag has become `true`.
pub fn flip_and_notify(flag: &mut bool) -> (notify: bool)
    ensures
        *final(flag) == !*old(flag),
        notify == *final(flag),
{
    *flag = !*flag;
    *flag
}

/// A waiting thread's step: flips the shared flag and says whether to wait
/// on the condition variable, which it does when the flag has become
/// `false`.
pub fn flip_and_wait(flag: &mut bool) -> (wait: bool)
    ensures
        *final(flag) == !*old(flag),
        wait == !*final(flag),
{
    *flag = !*flag;
    !*flag
}

/// Whatever the order of the threads, after `n` flips the flag is the start
/// value flipped `n % 2` times; in particular an even number of flips
/// brings it back.
pub proof fn lemma_flip_parity(start: bool, n: nat)
    ensures
        flipped(start, n) == if n % 2 == 0 {
            start
        } else {
            !start
        },
    decreases n,
{
    if n > 0 {
        lemma_flip_parity(start, (n - 1) as nat);
    }
}

} // verus!
