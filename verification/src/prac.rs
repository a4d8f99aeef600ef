use std::sync::atomic::AtomicBool;
use vstd::prelude::*;

verus! {

/// Makes a fresh atomic flag, cleared, and lets it go.
pub fn sp() {
    let _flag = AtomicBool::new(false);
}

/// How long the simulated computation with parameter `x` sleeps, in
/// milliseconds: `x * 31`.
pub fn comp(x: usize) -> (ms: u64)
    requires
        x * 31 <= usize::MAX,
    ensures
        ms == x * 31,
{
    (x * 31) as u64
}

/// Ids handed out by the id counter are below this.
pub const ID_LIMIT: u64 = 1000;

/// A counter handing out thread ids, starting at 1.
///
/// Each method is one indivisible step on the counter.
pub struct IdCounter {
    next: u64,
}

impl IdCounter {
    /// The next id to hand out.
    pub closed spec fn next(self) -> u64 {
        self.next
    }

    /// The counter at `next`.
    pub closed spec fn at(next: u64) -> IdCounter {
        IdCounter { next }
    }

    /// What a claim returns on this counter.
    pub open spec fn claimed(self) -> Option<u64> {
        if self.next() >= ID_LIMIT {
            None
        } else {
            Some(self.next())
        }
    }

    /// The counter after a claim.
    pub open spec fn after_claim(self) -> IdCounter {
        if self.next() >= ID_LIMIT {
            self
        } else {
            IdCounter::at((self.next() + 1) as u64)
        }
    }

    /// A counter whose first id is 1.
    pub fn new() -> (c: IdCounter)
        ensures
            c == IdCounter::at(1),
            c.next() == 1,
    {
        IdCounter { next: 1 }
    }

    /// Reads the counter.
    pub fn load(&self) -> (v: u64)
        ensures
            v == self.next(),
    {
        self.next
    }

    /// Replaces `current` by `new` if the counter holds `current`: `Ok` with
    /// the old value if it did, `Err` with the value found otherwise.
    pub fn compare_exchange(&mut self, current: u64, new: u64) -> (r: Result<u64, u64>)
        ensures
            old(self).next() == current ==> r == Ok::<u64, u64>(current) && *final(self)
                == IdCounter::at(new) && final(self).next() == new,
            old(self).next() != current ==> r == Err::<u64, u64>(old(self).next()) && *final(self) == *old(self),
    {
        if self.next == current {
            self.next = new;
            Ok(current)
        } else {
            Err(self.next)
        }
    }

    /// Claims the next id: reads the counter and, below the limit, moves it
    /// one on and returns the id read; at the limit, returns `None`.
    pub fn claim(&mut self) -> (id: Option<u64>)
        ensures
            id == old(self).claimed(),
            *final(self) == old(self).after_claim(),
            final(self).next() == if old(self).next() >= ID_LIMIT {
                old(self).next() as int
            } else {
                old(self).next() + 1
            },
    {
        let id = self.load();
        if id >= ID_LIMIT {
            None
        } else {
            match self.compare_exchange(id, id + 1) {
                Ok(c) => Some(c),
                Err(_) => vstd::pervasive::unreached(),
            }
        }
    }
}

/// The counter after `k` claims from a fresh one.
pub open spec fn claims_from_start(k: nat) -> IdCounter
    decreases k,
{
    if k == 0 {
        IdCounter::at(1)
    } else {
        claims_from_start((k - 1) as nat).after_claim()
    }
}

/// A fresh counter hands out 1, 2, ..., `ID_LIMIT - 1` in order, each once,
/// and then nothing more: the `k`-th claim (from 0) gets `k + 1`.
pub proof fn lemma_ids_in_order(k: nat)
    ensures
        k < ID_LIMIT - 1 ==> claims_from_start(k).claimed() == Some((k + 1) as u64),
        k >= ID_LIMIT - 1 ==> claims_from_start(k).claimed() is None,
        claims_from_start(k).next() == if k < ID_LIMIT - 1 {
            (k + 1) as int
        } else {
            ID_LIMIT as int
        },
    decreases k,
{
    if k > 0 {
        lemma_ids_in_order((k - 1) as nat);
    }
}

/// Names handed out by the name counter are below this.
pub const NAME_LIMIT: u32 = 1000;

/// The update applied to the name counter: one more while below the limit,
/// no update at the limit.
pub fn bump_below_limit(n: u32) -> (r: Option<u32>)
    ensures
        n < NAME_LIMIT ==> r == Some((n + 1) as u32),
        n >= NAME_LIMIT ==> r is None,
{
    if n < NAME_LIMIT {
        Some(n + 1)
    } else {
        None
    }
}

/// A 32-bit atomic counter.
///
/// Each method is one indivisible step; additions wrap around as atomic
/// additions do.
pub struct Counter32 {
    value: u32,
}

impl Counter32 {
    /// The value held.
    pub closed spec fn value(self) -> u32 {
        self.value
    }

    /// The counter holding `v`.
    pub closed spec fn holding(v: u32) -> Counter32 {
        Counter32 { value: v }
    }

    /// A counter holding `v`.
    pub fn new(v: u32) -> (c: Counter32)
        ensures
            c == Counter32::holding(v),
            c.value() == v,
    {
        Counter32 { value: v }
    }

    /// Reads the value.
    pub fn load(&self) -> (v: u32)
        ensures
            v == self.value(),
    {
        self.value
    }

    /// Writes `v`.
    pub fn store(&mut self, v: u32)
        ensures
            *final(self) == Counter32::holding(v),
            final(self).value() == v,
    {
        self.value = v;
    }

    /// Adds `n`, wrapping around, and returns the value before.
    pub fn fetch_add(&mut self, n: u32) -> (before: u32)
        ensures
            before == old(self).value(),
            *final(self) == Counter32::holding(old(self).value().wrapping_add(n)),
            final(self).value() == old(self).value().wrapping_add(n),
    {
        let before = self.value;
        self.value = self.value.wrapping_add(n);
        before
    }

    /// Replaces `current` by `new` if the counter holds `current`: `Ok` with
    /// the old value if it did, `Err` with the value found otherwise.
    pub fn compare_exchange(&mut self, current: u32, new: u32) -> (r: Result<u32, u32>)
        ensures
            old(self).value() == current ==> r == Ok::<u32, u32>(current) && *final(self)
                == Counter32::holding(new) && final(self).value() == new,
            old(self).value() != current ==> r == Err::<u32, u32>(old(self).value()) && *final(self) == *old(self),
    {
        if self.value == current {
            self.value = new;
            Ok(current)
        } else {
            Err(self.value)
        }
    }

    /// Applies `bump_below_limit` to the value: below the limit the value
    /// goes one up and `Ok` carries the value before; at the limit nothing
    /// changes and `Err` carries the value.
    pub fn fetch_update_below_limit(&mut self) -> (r: Result<u32, u32>)
        ensures
            old(self).value() < NAME_LIMIT ==> r == Ok::<u32, u32>(old(self).value())
                && *final(self) == Counter32::holding((old(self).value() + 1) as u32)
                && final(self).value() == old(self).value() + 1,
            old(self).value() >= NAME_LIMIT ==> r == Err::<u32, u32>(old(self).value())
                && *final(self) == *old(self),
    {
        let before = self.value;
        match bump_below_limit(before) {
            Some(next) => {
                self.value = next;
                Ok(before)
            },
            None => Err(before),
        }
    }
}

/// The value after adding each of `increments` in order, wrapping around.
pub open spec fn add_all(start: u32, increments: Seq<u32>) -> u32
    decreases increments.len(),
{
    if increments.len() == 0 {
        start
    } else {
        add_all(start, increments.drop_last()).wrapping_add(increments.last())
    }
}

/// The sum of a sequence of increments.
pub open spec fn increments_sum(increments: Seq<u32>) -> int
    decreases increments.len(),
{
    if increments.len() == 0 {
        0
    } else {
        increments_sum(increments.drop_last()) + increments.last()
    }
}

/// Two additions commute: whichever of two threads adds first, the counter
/// ends with the same value.
pub proof fn lemma_fetch_add_commutes(v: u32, a: u32, b: u32)
    ensures
        v.wrapping_add(a).wrapping_add(b) == v.wrapping_add(b).wrapping_add(a),
{
}

/// After any sequence of additions the counter holds the start plus the sum
/// of the increments, modulo 2^32; so the final value depends only on which
/// increments were made, not on their order.
pub proof fn lemma_add_all_closed_form(start: u32, increments: Seq<u32>)
    ensures
        add_all(start, increments) == (start + increments_sum(increments)) % 0x1_0000_0000,
        increments_sum(increments) >= 0,
    decreases increments.len(),
{
    if increments.len() > 0 {
        let p = increments.drop_last();
        lemma_add_all_closed_form(start, p);
        let s = increments_sum(p);
        let x = increments.last();
        assert((((start + s) % 0x1_0000_0000) + x) % 0x1_0000_0000 == (start + s + x)
            % 0x1_0000_0000) by (nonlinear_arith)
            requires
                s >= 0,
                0 <= x,
        {
            vstd::arithmetic::div_mod::lemma_add_mod_noop(start + s, x as int, 0x1_0000_0000);
            vstd::arithmetic::div_mod::lemma_mod_twice(x as int, 0x1_0000_0000);
        }
    }
}

proof fn lemma_sum_remove(s: Seq<u32>, j: int)
    requires
        0 <= j < s.len(),
    ensures
        increments_sum(s) == increments_sum(s.remove(j)) + s[j],
    decreases s.len(),
{
    if j < s.len() - 1 {
        let p = s.drop_last();
        lemma_sum_remove(p, j);
        assert(s.remove(j).drop_last() =~= p.remove(j));
        assert(s.remove(j).last() == s.last());
    } else {
        assert(s.remove(j) =~= s.drop_last());
    }
}

proof fn lemma_sum_same_multiset(s: Seq<u32>, t: Seq<u32>)
    requires
        s.to_multiset() == t.to_multiset(),
    ensures
        increments_sum(s) == increments_sum(t),
    decreases s.len(),
{
    broadcast use vstd::seq_lib::group_to_multiset_ensures;

    if s.len() == 0 {
        assert(t.to_multiset().len() == 0);
        assert(t.len() == 0);
    } else {
        let x = s.last();
        let p = s.drop_last();
        assert(s =~= p.push(x));
        assert(s.to_multiset().count(x) > 0);
        assert(t.contains(x));
        let j = choose|j: int| 0 <= j < t.len() && t[j] == x;
        let u = t.remove(j);
        assert(t =~= u.insert(j, x));
        assert(p.to_multiset() =~= u.to_multiset());
        lemma_sum_same_multiset(p, u);
        lemma_sum_remove(t, j);
    }
}

/// Whatever the order in which threads make their additions, the counter
/// ends with the same value: two sequences of increments holding the same
/// increments (as multisets) take a start value to the same result.
pub proof fn lemma_add_all_order_independent(start: u32, s: Seq<u32>, t: Seq<u32>)
    requires
        s.to_multiset() == t.to_multiset(),
    ensures
        add_all(start, s) == add_all(start, t),
{
    lemma_add_all_closed_form(start, s);
    lemma_add_all_closed_form(start, t);
    lemma_sum_same_multiset(s, t);
}

/// A test-and-set lock over a tally, where every visitor clears the flag
/// when it leaves, whether or not it took the lock.
pub struct GuardedTally {
    locked: bool,
    data: u32,
}

impl GuardedTally {
    /// Whether the flag is set.
    pub closed spec fn is_locked(self) -> bool {
        self.locked
    }

    /// The tally.
    pub closed spec fn data(self) -> u32 {
        self.data
    }

    /// The state with flag `locked` and tally `data`.
    pub closed spec fn state(locked: bool, data: u32) -> GuardedTally {
        GuardedTally { locked, data }
    }

    /// The state after a visit.
    pub open spec fn after_visit(self) -> GuardedTally {
        if self.is_locked() {
            GuardedTally::state(false, self.data())
        } else {
            GuardedTally::state(false, (self.data() + 10) as u32)
        }
    }

    /// A free tally holding `data`.
    pub fn new(data: u32) -> (t: GuardedTally)
        ensures
            t == GuardedTally::state(false, data),
            !t.is_locked() && t.data() == data,
    {
        GuardedTally { locked: false, data }
    }

    /// Reads the tally.
    pub fn read(&self) -> (v: u32)
        ensures
            v == self.data(),
    {
        self.data
    }

    /// Sets the flag as another thread holding the lock would.
    pub fn hold(&mut self)
        ensures
            *final(self) == GuardedTally::state(true, old(self).data()),
            final(self).is_locked() && final(self).data() == old(self).data(),
    {
        self.locked = true;
    }

    /// One visit: tries to take the flag; if it was free, adds 10 to the
    /// tally; in either case clears the flag. Returns whether it added.
    pub fn visit(&mut self) -> (added: bool)
        requires
            !old(self).is_locked() ==> old(self).data() + 10 <= u32::MAX,
        ensures
            added == !old(self).is_locked(),
            *final(self) == old(self).after_visit(),
            !final(self).is_locked(),
            final(self).data() == if added {
                old(self).data() + 10
            } else {
                old(self).data() as int
            },
    {
        let was_locked = self.locked;
        self.locked = true;
        if !was_locked {
            self.data = self.data + 10;
        }
        self.locked = false;
        !was_locked
    }
}

/// Visits made one after another each find the flag free and add 10:
/// `n` visits to a free tally at `d` leave it free at `d + 10 n`. A visit
/// to a held tally adds nothing but frees the flag.
pub proof fn lemma_visits_add_ten(d: u32)
    requires
        d + 10 <= u32::MAX,
    ensures
        GuardedTally::state(false, d).after_visit() == GuardedTally::state(
            false,
            (d + 10) as u32,
        ),
        GuardedTally::state(true, d).after_visit() == GuardedTally::state(false, d),
{
}

} // verus!
