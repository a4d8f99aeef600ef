use vstd::prelude::*;

verus! {

/// A cell whose value is read by copy and written through `&mut`.
pub struct MyCell<T> {
    value: T,
}

impl<T> MyCell<T> {
    /// The value held.
    pub closed spec fn value(&self) -> T {
        self.value
    }

    /// The cell after `val` is written.
    pub closed spec fn after_set(self, val: T) -> MyCell<T> {
        MyCell { value: val }
    }

    /// A cell holding `val`.
    pub fn new(val: T) -> (c: MyCell<T>)
        ensures
            c.value() == val,
    {
        MyCell { value: val }
    }

    /// A copy of the value.
    pub fn get(&self) -> (v: T) where T: Copy
        ensures
            v == self.value(),
    {
        self.value
    }

    /// Replaces the value.
    pub fn set(&mut self, val: T)
        ensures
            *final(self) == old(self).after_set(val),
            final(self).value() == val,
    {
        self.value = val;
    }
}

/// A cell whose value is read by reference.
pub struct RefCellPlain<T> {
    value: T,
}

impl<T> RefCellPlain<T> {
    /// The value held.
    pub closed spec fn value(&self) -> T {
        self.value
    }

    /// The cell after `val` is written.
    pub closed spec fn after_set(self, val: T) -> RefCellPlain<T> {
        RefCellPlain { value: val }
    }

    /// A cell holding `val`.
    pub fn new(val: T) -> (c: RefCellPlain<T>)
        ensures
            c.value() == val,
    {
        RefCellPlain { value: val }
    }

    /// A reference to the value.
    pub fn get(&self) -> (v: &T)
        ensures
            *v == self.value(),
    {
        &self.value
    }

    /// Replaces the value.
    pub fn set(&mut self, val: T)
        ensures
            *final(self) == old(self).after_set(val),
            final(self).value() == val,
    {
        self.value = val;
    }
}

/// A read after a write gives back what was written, whatever either cell
/// held before.
pub proof fn lemma_get_after_set<T>(c: MyCell<T>, d: RefCellPlain<T>, written: T)
    ensures
        c.after_set(written).value() == written,
        d.after_set(written).value() == written,
{
}

/// Puts 10 in a copying cell, reads it, writes 20, reads again; returns
/// the two values read.
pub fn un() -> (read: (i32, i32))
    ensures
        read == (10i32, 20i32),
{
    let mut cell = MyCell::new(10i32);
    let k1 = cell.get();
    cell.set(20);
    let k2 = cell.get();
    (k1, k2)
}

/// Puts 10 in a referencing cell, reads it, writes 20, reads again; returns
/// the two values read.
pub fn un1() -> (read: (i32, i32))
    ensures
        read == (10i32, 20i32),
{
    let mut cell = RefCellPlain::new(10i32);
    let k1 = *cell.get();
    cell.set(20);
    let k2 = *cell.get();
    (k1, k2)
}

} // verus!
