//! Saturating event counters for the metric records.

use vstd::prelude::*;

verus! {

/// `a + b`, saturating at the counter word's maximum.
pub open spec fn sat_add(a: u64, b: u64) -> u64 {
    if a + b <= u64::MAX {
        (a + b) as u64
    } else {
        u64::MAX
    }
}

/// A counter that can grow by an arbitrary amount at a time.
pub trait CounterIncrementer {
    /// The counter's current value.
    spec fn value(&self) -> u64;

    /// Grow the counter by `n`, saturating at the maximum.
    fn increment_by(&mut self, n: u64)
        ensures
            final(self).value() == sat_add(old(self).value(), n),
    ;
}

/// A plain saturating event counter.
#[derive(Clone, Copy, Debug)]
pub struct Counter {
    /// The number of events counted so far.
    pub count: u64,
}

impl Counter {
    /// A counter at zero.
    pub fn new() -> (r: Counter)
        ensures
            r.count == 0,
    {
        Counter { count: 0 }
    }

    /// The counter's current value.
    pub fn get(&self) -> (r: u64)
        ensures
            r == self.count,
    {
        self.count
    }
}

impl CounterIncrementer for Counter {
    open spec fn value(&self) -> u64 {
        self.count
    }

    fn increment_by(&mut self, n: u64) {
        if n <= u64::MAX - self.count {
            self.count = self.count + n;
        } else {
            self.count = u64::MAX;
        }
    }
}

} // verus!
