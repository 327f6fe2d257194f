//! The items that fall down the play area.
//!
//! Positions are held in thousandths of a pixel, fall speeds in pixels per
//! second and elapsed time in milliseconds, so one millisecond at one pixel
//! per second moves an item by exactly one unit.

use vstd::prelude::*;

verus! {

/// A labelled point in the play area; `x` and `y` are in thousandths of a pixel.
pub struct Item {
    pub x: u64,
    pub y: u64,
    pub word: String,
}

/// `a + b`, held at the largest `u64` when it would exceed it.
pub open spec fn saturating_sum(a: int, b: int) -> int {
    if a + b > u64::MAX {
        u64::MAX as int
    } else {
        a + b
    }
}

/// The distance, in thousandths of a pixel, that an item falls in
/// `elapsed_ms` milliseconds at `fall_speed` pixels per second.
pub open spec fn fall_distance(elapsed_ms: u32, fall_speed: u32) -> int {
    elapsed_ms as int * fall_speed as int
}

/// `it` after falling for `elapsed_ms` milliseconds: only `y` changes.
pub open spec fn fallen(it: Item, elapsed_ms: u32, fall_speed: u32) -> Item {
    Item { y: saturating_sum(it.y as int, fall_distance(elapsed_ms, fall_speed)) as u64, ..it }
}

/// Every item of `s` after falling for `elapsed_ms` milliseconds.
pub open spec fn all_fallen(s: Seq<Item>, elapsed_ms: u32, fall_speed: u32) -> Seq<Item> {
    s.map_values(|it: Item| fallen(it, elapsed_ms, fall_speed))
}

/// The live items, in the order they were spawned. Items are never removed.
pub struct FallingItems {
    items: Vec<Item>,
}

impl View for FallingItems {
    type V = Seq<Item>;

    closed spec fn view(&self) -> Seq<Item> {
        self.items@
    }
}

impl FallingItems {
    /// No items.
    pub fn new() -> (r: FallingItems)
        ensures
            r@ == Seq::<Item>::empty(),
    {
        FallingItems { items: Vec::new() }
    }

    /// The items, in spawn order.
    pub fn items(&self) -> (r: &Vec<Item>)
        ensures
            r@ == self@,
    {
        &self.items
    }

    /// Number of items.
    pub fn len(&self) -> (r: usize)
        ensures
            r as int == self@.len(),
    {
        self.items.len()
    }

    /// Adds an item at height zero.
    pub fn spawn(&mut self, x: u64, word: String)
        ensures
            final(self)@ == old(self)@.push(Item { x, y: 0, word }),
    {
        self.items.push(Item { x, y: 0, word });
    }

    /// Moves every item down by `elapsed_ms * fall_speed` thousandths of a pixel.
    pub fn advance(&mut self, elapsed_ms: u32, fall_speed: u32)
        ensures
            final(self)@ == all_fallen(old(self)@, elapsed_ms, fall_speed),
    {
        proof {
            let (a, b) = (elapsed_ms as int, fall_speed as int);
            assert(a * b <= u32::MAX * u32::MAX) by (nonlinear_arith)
                requires
                    0 <= a <= u32::MAX,
                    0 <= b <= u32::MAX,
            ;
        }
        let d: u64 = elapsed_ms as u64 * fall_speed as u64;
        let n: usize = self.items.len();
        let mut i: usize = 0;
        while i < n
            invariant
                n == self.items@.len(),
                n == old(self).items@.len(),
                d == fall_distance(elapsed_ms, fall_speed),
                0 <= i <= n,
                forall|j: int| 0 <= j < i ==> self.items@[j] == fallen(old(self).items@[j], elapsed_ms, fall_speed),
                forall|j: int| i <= j < n ==> self.items@[j] == old(self).items@[j],
            decreases n - i,
        {
            let y: u64 = self.items[i].y;
            self.items[i].y = y.saturating_add(d);
            i = i + 1;
        }
        assert(self.items@ =~= all_fallen(old(self)@, elapsed_ms, fall_speed));
    }
}

} // verus!
