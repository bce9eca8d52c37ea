use vstd::prelude::*;

verus! {

/// Denominator of every fraction in this crate: a fraction `f` stands for `f / 1_000_000`.
pub const PARTS_PER_MILLION: u64 = 1_000_000;

/// The normalized gap between the current price and the reference price,
/// `(current - reference) / current`, kept as an exact ratio.
#[derive(Clone, Copy, Debug, PartialEq, Eq, Structural)]
pub struct PriceDiff {
    /// `current - reference`, in ticks.
    pub change: i128,
    /// `current`, in ticks.
    pub price: u64,
}

/// The signal for a current price and a reference price.
pub open spec fn price_diff(current: u64, reference: u64) -> PriceDiff {
    PriceDiff { change: (current - reference) as i128, price: current }
}

impl PriceDiff {
    /// Values that a signal built from two prices can hold.
    pub open spec fn in_range(self) -> bool {
        &&& -(u64::MAX as int) <= self.change <= u64::MAX
        &&& self.price > 0
    }

    /// `change / price < t / 1_000_000`, compared exactly.
    pub open spec fn below(self, t: int) -> bool {
        self.change * PARTS_PER_MILLION < t * self.price
    }

    /// `change / price > t / 1_000_000`, compared exactly.
    pub open spec fn above(self, t: int) -> bool {
        self.change * PARTS_PER_MILLION > t * self.price
    }

    /// Builds the signal of a current price against a reference price.
    pub fn new(current: u64, reference: u64) -> (r: PriceDiff)
        ensures
            r == price_diff(current, reference),
    {
        PriceDiff { change: current as i128 - reference as i128, price: current }
    }

    /// Whether the signal lies strictly below the fraction `t` (parts per million).
    pub fn is_below(&self, t: u64) -> (r: bool)
        requires
            self.in_range(),
            t <= u32::MAX as u64 * 2,
        ensures
            r == self.below(t as int),
    {
        let (lhs, rhs) = self.scaled(t);
        lhs < rhs
    }

    /// Whether the signal lies strictly above the fraction `t` (parts per million).
    pub fn is_above(&self, t: u64) -> (r: bool)
        requires
            self.in_range(),
            t <= u32::MAX as u64 * 2,
        ensures
            r == self.above(t as int),
    {
        let (lhs, rhs) = self.scaled(t);
        lhs > rhs
    }

    /// Both sides of the comparison of `change / price` with `t / 1_000_000`,
    /// brought to the common denominator `price * 1_000_000`.
    fn scaled(&self, t: u64) -> (r: (i128, i128))
        requires
            self.in_range(),
            t <= u32::MAX as u64 * 2,
        ensures
            r.0 == self.change * PARTS_PER_MILLION,
            r.1 == t * self.price,
    {
        let p: u64 = self.price;
        proof {
            assert(0 <= t * p <= (u32::MAX as u64 * 2) * u64::MAX) by (nonlinear_arith)
                requires
                    t <= u32::MAX as u64 * 2,
                    p <= u64::MAX,
            ;
        }
        let lhs: i128 = self.change * (PARTS_PER_MILLION as i128);
        let rhs: i128 = (t as i128) * (p as i128);
        (lhs, rhs)
    }
}

} // verus!
