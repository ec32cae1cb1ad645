//! The count of food eaten.

use vstd::prelude::*;

verus! {

/// A counter that only ever goes up, by one per consumption.
#[derive(Debug)]
pub struct Score {
    eaten: u64,
}

impl View for Score {
    type V = nat;

    closed spec fn view(&self) -> nat {
        self.eaten as nat
    }
}

impl Score {
    /// A score of zero.
    pub fn new() -> (score: Score)
        ensures
            score@ == 0,
    {
        Score { eaten: 0 }
    }

    /// The number of consumptions recorded so far.
    pub fn eaten(&self) -> (count: u64)
        ensures
            count == self@,
    {
        self.eaten
    }

    /// Records one consumption.
    pub fn record_consumption(&mut self)
        requires
            old(self)@ < u64::MAX,
        ensures
            final(self)@ == old(self)@ + 1,
    {
        self.eaten = self.eaten + 1;
    }
}

} // verus!
