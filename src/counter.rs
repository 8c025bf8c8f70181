use vstd::prelude::*;

verus! {

/// A process-wide counter. Callers that share it put it behind a lock, so
/// that each increment is one uninterrupted read, add and write.
#[derive(Debug)]
pub struct Counter {
    value: u32,
}

impl View for Counter {
    type V = nat;

    closed spec fn view(&self) -> nat {
        self.value as nat
    }
}

impl Counter {
    /// A counter that starts at zero.
    pub fn new() -> (r: Counter)
        ensures
            r@ == 0,
    {
        Counter { value: 0 }
    }

    /// The value stored now.
    pub fn value(&self) -> (r: u32)
        ensures
            r as nat == self@,
    {
        self.value
    }

    /// Whether one more increment still fits in a `u32`.
    pub fn can_increment(&self) -> (r: bool)
        ensures
            r == (self@ < u32::MAX),
    {
        self.value < u32::MAX
    }

    /// Adds one to the stored value and returns the new value.
    pub fn increment_counter(&mut self) -> (r: u32)
        requires
            old(self)@ < u32::MAX,
        ensures
            Counter::increments(*old(self), *final(self), r),
    {
        self.value = self.value + 1;
        self.value
    }

    /// One increment: the value goes up by exactly one and the call
    /// returns the new value.
    pub open spec fn increments(before: Counter, after: Counter, r: u32) -> bool {
        &&& after@ == before@ + 1
        &&& r as nat == after@
    }
}

/// Increments performed one after another on a counter that starts at
/// zero return 1, 2, ..., n, and leave n stored: no update is lost. Calls
/// from several callers serialised by a lock form such a sequence too, so
/// the final value equals the number of calls that completed.
pub proof fn lemma_increments_in_sequence(states: Seq<Counter>, returned: Seq<u32>)
    requires
        states.len() == returned.len() + 1,
        states[0]@ == 0,
        forall|k: int|
            0 <= k < returned.len() ==> #[trigger] Counter::increments(
                states[k],
                states[k + 1],
                returned[k],
            ),
    ensures
        forall|k: int| 0 <= k < returned.len() ==> returned[k] as nat == k + 1,
        states.last()@ == returned.len(),
    decreases returned.len(),
{
    if returned.len() > 0 {
        let n = returned.len() - 1;
        lemma_increments_in_sequence(states.subrange(0, n + 1), returned.subrange(0, n));
        assert(Counter::increments(states[n], states[n + 1], returned[n]));
        assert forall|k: int| 0 <= k < returned.len() implies returned[k] as nat == k + 1 by {
            if k < n {
                assert(returned.subrange(0, n)[k] == returned[k]);
            }
        }
    }
}

} // verus!
