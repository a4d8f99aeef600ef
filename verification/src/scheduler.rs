use crate::uncell::{MyCell, RefCellPlain};
use vstd::prelude::*;

verus! {

/// The value at which a worker reports that it would park.
pub const PARK_ABOVE: i32 = 50;

/// A worker's step on the shared number: adds 10 and says whether the new
/// value is above `PARK_ABOVE`.
pub fn add_ten_and_check(x: &mut i32) -> (report: bool)
    requires
        *old(x) + 10 <= i32::MAX,
    ensures
        *final(x) == *old(x) + 10,
        report == (*final(x) > PARK_ABOVE),
{
    *x = *x + 10;
    *x > PARK_ABOVE
}

/// Starting from 10 and adding 10 per worker, whatever order the workers
/// run in, the `k`-th of them (counting from 1) sees `10 + 10 k`, and it
/// reports exactly when `k` is 5 or more.
pub proof fn lemma_reports_from_fifth(k: int)
    requires
        k >= 1,
    ensures
        (10 + 10 * k > PARK_ABOVE) <==> k >= 5,
{
}

/// Puts 10 in a copying cell, reads it, writes 20, reads again; returns
/// the two values read.
pub fn un() -> (read: (i32, i32))
    ensures
        read == (10i32, 20i32),
{
    let mut cell = MyCell::new(10i32);
    let k1 = cell.get();
    cell.set(20);
    let k2 = cell.get();
    (k1, k2)
}

/// Puts 10 in a referencing cell, reads it, writes 20, reads again; returns
/// the two values read.
pub fn un1() -> (read: (i32, i32))
    ensures
        read == (10i32, 20i32),
{
    let mut cell = RefCellPlain::new(10i32);
    let k1 = *cell.get();
    cell.set(20);
    let k2 = *cell.get();
    (k1, k2)
}

} // verus!
