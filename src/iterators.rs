//! Counting and Fibonacci sequences, produced one value at a time.
use vstd::prelude::*;

verus! {

/// Counts from 1 up to `max`.
pub struct Counter {
    pub count: u32,
    pub max: u32,
}

impl Counter {
    pub fn new(max: u32) -> (r: Counter)
        ensures
            r.count == 0,
            r.max == max,
    {
        Counter { count: 0, max }
    }

    /// The next number, until `max` has been reached.
    pub fn next(&mut self) -> (r: Option<u32>)
        ensures
            final(self).max == old(self).max,
            old(self).count < old(self).max ==> final(self).count == old(self).count + 1 && r == Some(
                final(self).count,
            ),
            old(self).count >= old(self).max ==> final(self).count == old(self).count && r == None::<
                u32,
            >,
    {
        if self.count < self.max {
            self.count += 1;
            Some(self.count)
        } else {
            None
        }
    }
}

/// The Fibonacci numbers 0, 1, 1, 2, 3, 5, ...
pub struct Fibonacci {
    pub current: u64,
    pub next: u64,
}

impl Fibonacci {
    pub fn new() -> (r: Fibonacci)
        ensures
            r.current == 0,
            r.next == 1,
    {
        Fibonacci { current: 0, next: 1 }
    }

    /// The current number; the sequence then moves one step on. The caller
    /// stops before the step leaves `u64`.
    pub fn next(&mut self) -> (r: Option<u64>)
        requires
            old(self).current + old(self).next <= u64::MAX,
        ensures
            r == Some(old(self).current),
            final(self).current == old(self).next,
            final(self).next == old(self).current + old(self).next,
    {
        let current = self.current;
        self.current = self.next;
        self.next = current + self.next;
        Some(current)
    }
}

} // verus!
