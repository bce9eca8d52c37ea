use vstd::prelude::*;

verus! {

/// A deterministic stand-in for a market feed: it starts at `base` and rises
/// by `step` on every reading.
#[derive(Clone, Copy, Debug, PartialEq, Eq, Structural)]
pub struct SteppedFeed {
    /// First price given, in ticks.
    pub base: u64,
    /// Rise per reading, in ticks.
    pub step: u64,
}

impl SteppedFeed {
    /// The reading that follows the last known price: `base` when there is
    /// none, else `last + step`, absent once that no longer fits in `u64`.
    pub open spec fn spec_next_price(self, last: Option<u64>) -> Option<u64> {
        match last {
            None => Some(self.base),
            Some(p) => if p + self.step <= u64::MAX {
                Some((p + self.step) as u64)
            } else {
                None
            },
        }
    }

    /// Gives the reading that follows the last known price.
    pub fn next_price(&self, last: Option<u64>) -> (r: Option<u64>)
        ensures
            r == self.spec_next_price(last),
    {
        match last {
            None => Some(self.base),
            Some(p) => p.checked_add(self.step),
        }
    }
}

} // verus!
