//! The sample relay between the capture side (producer) and the playback
//! side (consumer): an unbounded stack, pushed at the tail and popped
//! from the tail.

use vstd::prelude::*;

verus! {

/// Perturbed samples waiting for playback, oldest first.
pub struct SampleRelay {
    samples: Vec<i64>,
}

impl View for SampleRelay {
    type V = Seq<i64>;

    closed spec fn view(&self) -> Seq<i64> {
        self.samples@
    }
}

impl SampleRelay {
    /// An empty relay.
    pub fn new() -> (r: SampleRelay)
        ensures
            r@ == Seq::<i64>::empty(),
    {
        SampleRelay { samples: Vec::new() }
    }

    /// Appends a sample at the tail.
    pub fn push(&mut self, v: i64)
        ensures
            final(self)@ == old(self)@.push(v),
    {
        self.samples.push(v);
    }

    /// Removes and returns the sample at the tail, the most recently
    /// pushed one; `None` when the relay is empty.
    pub fn pop(&mut self) -> (r: Option<i64>)
        ensures
            old(self)@.len() == 0 ==> r is None && final(self)@ == old(self)@,
            old(self)@.len() > 0 ==> r == Some(old(self)@.last()) && final(self)@
                == old(self)@.drop_last(),
    {
        self.samples.pop()
    }

    /// The number of samples waiting.
    pub fn len(&self) -> (r: usize)
        ensures
            r == self@.len(),
    {
        self.samples.len()
    }

    /// Whether no sample is waiting.
    pub fn is_empty(&self) -> (r: bool)
        ensures
            r == (self@.len() == 0),
    {
        self.samples.len() == 0
    }
}

} // verus!
