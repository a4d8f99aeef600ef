use std::collections::VecDeque;
use vstd::prelude::*;

verus! {

broadcast use vstd::std_specs::vecdeque::group_vec_dequeue_axioms;

/// How many items the bounded queue holds before producers wait.
pub const FULL_CAPACITY: usize = 10;

/// A queue of jobs shared by producers and consumers, optionally bounded.
///
/// Producers put new items at the front; consumers take from the front as
/// well, so the most recently produced item is taken first.
pub struct JobQueue<T> {
    items: VecDeque<T>,
    bound: Option<usize>,
}

impl<T> View for JobQueue<T> {
    type V = Seq<T>;

    /// The items, front first.
    closed spec fn view(&self) -> Seq<T> {
        self.items@
    }
}

impl<T> JobQueue<T> {
    /// A bounded queue never holds more than its bound.
    #[verifier::type_invariant]
    closed spec fn wf(self) -> bool {
        self.bound matches Some(c) ==> self.items@.len() <= c
    }

    /// The bound, if the queue has one.
    pub closed spec fn bound(self) -> Option<usize> {
        self.bound
    }

    /// Whether a producer has to wait before putting an item in.
    pub open spec fn is_full(self) -> bool {
        self.bound() matches Some(c) && self.view().len() == c
    }

    /// An empty queue that holds at most `capacity` items.
    pub fn bounded(capacity: usize) -> (q: JobQueue<T>)
        ensures
            q.view() == Seq::<T>::empty(),
            q.bound() == Some(capacity),
    {
        JobQueue { items: VecDeque::new(), bound: Some(capacity) }
    }

    /// An empty queue with no bound.
    pub fn unbounded() -> (q: JobQueue<T>)
        ensures
            q.view() == Seq::<T>::empty(),
            q.bound() is None,
    {
        JobQueue { items: VecDeque::new(), bound: None }
    }

    /// Number of items held.
    pub fn len(&self) -> (n: usize)
        ensures
            n == self.view().len(),
    {
        self.items.len()
    }

    /// Whether a producer has to wait.
    pub fn is_full_now(&self) -> (full: bool)
        ensures
            full == self.is_full(),
            self.bound() is None ==> !full,
            self.bound() matches Some(c) ==> (full <==> self.view().len() == c as int),
    {
        match self.bound {
            Some(c) => self.items.len() == c,
            None => false,
        }
    }

    /// A producer's step: if the queue is full the item is handed back
    /// (the producer waits and tries again); otherwise it goes in front.
    pub fn offer(&mut self, item: T) -> (r: Result<(), T>)
        requires
            old(self).bound() is None ==> old(self).view().len() < usize::MAX,
        ensures
            old(self).is_full() ==> r == Err::<(), T>(item) && final(self).view() == old(self).view(),
            !old(self).is_full() ==> r is Ok && final(self).view() == seq![item] + old(self).view(),
            final(self).bound() == old(self).bound(),
            final(self).bound() matches Some(c) ==> final(self).view().len() <= c,
            old(self).bound() is None ==> r is Ok && final(self).view() == seq![item] + old(self).view(),
            old(self).bound() matches Some(c) ==> (r is Err <==> old(self).view().len() == c as int),
    {
        proof {
            use_type_invariant(&*self);
        }
        if self.is_full_now() {
            Err(item)
        } else {
            let mut items = VecDeque::new();
            std::mem::swap(&mut items, &mut self.items);
            items.push_front(item);
            self.items = items;
            Ok(())
        }
    }

    /// A consumer's step: `None` if the queue is empty (the consumer waits);
    /// otherwise the front item, removed.
    pub fn take(&mut self) -> (r: Option<T>)
        ensures
            old(self).view().len() == 0 ==> r is None && final(self).view() == old(self).view(),
            old(self).view().len() > 0 ==> r == Some(old(self).view()[0]) && final(self).view()
                == old(self).view().drop_first(),
            final(self).bound() == old(self).bound(),
            final(self).bound() matches Some(c) ==> final(self).view().len() <= c,
    {
        proof {
            use_type_invariant(&*self);
        }
        let mut items = VecDeque::new();
        std::mem::swap(&mut items, &mut self.items);
        let r = items.pop_front();
        self.items = items;
        r
    }
}

/// A queue is full exactly when it has a bound and holds that many items:
/// a queue with no bound is never full, whatever it holds, and a bounded
/// one is full at its capacity and at no other length.
pub proof fn lemma_full_exactly_at_capacity<T>(q: JobQueue<T>)
    ensures
        q.bound() is None ==> !q.is_full(),
        q.bound() matches Some(c) ==> (q.is_full() <==> q.view().len() == c as int),
{
}

/// What a take gives back of an offer: an item put into a queue that is not
/// full is the next one taken, and taking it leaves the queue as it was.
pub proof fn lemma_offer_then_take<T>(items: Seq<T>, item: T)
    ensures
        (seq![item] + items).len() > 0,
        (seq![item] + items)[0] == item,
        (seq![item] + items).drop_first() == items,
{
    assert((seq![item] + items).drop_first() =~= items);
}

/// No item is lost or duplicated: an offer adds exactly its item and a take
/// removes exactly the item it returns.
pub proof fn lemma_items_conserved<T>(items: Seq<T>, item: T)
    ensures
        (seq![item] + items).to_multiset() == items.to_multiset().insert(item),
        items.len() > 0 ==> items.drop_first().to_multiset().insert(items[0])
            == items.to_multiset(),
{
    broadcast use vstd::seq_lib::group_to_multiset_ensures;

    assert((seq![item] + items) =~= items.insert(0, item));
    if items.len() > 0 {
        assert(items =~= items.drop_first().insert(0, items[0]));
    }
}

} // verus!
