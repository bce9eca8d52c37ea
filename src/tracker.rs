use vstd::prelude::*;

use crate::signal::{price_diff, PriceDiff};

verus! {

/// Trading posture: which eligibility check is active.
#[derive(Clone, Copy, Debug, PartialEq, Eq, Structural)]
pub enum Mode {
    /// Holding cash, looking to buy.
    Buying,
    /// Holding the asset, looking to sell.
    Selling,
}

/// The fixed parameters of an engine. Fractions are in parts per million.
#[derive(Clone, Copy, Debug, PartialEq, Eq, Structural)]
pub struct TradingConfig {
    /// Cost fraction charged on a buy.
    pub buying_fee: u32,
    /// Cost fraction charged on a sell.
    pub selling_fee: u32,
    /// Profit fraction required above the fees before selling.
    pub minimum_margin: u32,
    /// Discount fraction required below the fees before buying again.
    pub minimum_discount: u32,
    /// Ticks by which a fill is worse than the quoted price: added on a buy,
    /// taken off on a sell.
    pub fill_offset: u64,
}

impl TradingConfig {
    /// The signal must lie below this fraction for a buy.
    pub open spec fn buy_threshold(self) -> int {
        self.selling_fee + self.minimum_discount
    }

    /// The signal must lie above this fraction for a sell.
    pub open spec fn sell_threshold(self) -> int {
        self.buying_fee + self.minimum_margin
    }
}

/// What one cycle of the engine did.
#[derive(Clone, Copy, Debug, PartialEq, Eq, Structural)]
pub enum CycleOutcome {
    /// The feed gave no usable price: the state was left as it was.
    NoPrice,
    /// A price was observed and the active check did not allow a trade.
    Held,
    /// A price was observed and a buy was executed.
    Bought,
    /// A price was observed and a sell was executed.
    Sold,
}

/// The signal that goes with a current and a reference price: absent until
/// there is a reference price.
pub open spec fn signal_of(current: Option<u64>, reference: Option<u64>) -> Option<PriceDiff> {
    match (current, reference) {
        (Some(c), Some(r)) => Some(price_diff(c, r)),
        _ => None,
    }
}

/// Whether a reading from the price feed is a usable price.
pub open spec fn usable_reading(reading: Option<u64>) -> bool {
    reading matches Some(p) && p > 0
}

/// The complete state of the decision engine.
#[derive(Clone, Copy, Debug)]
pub struct TrackerState {
    /// Fixed parameters; no operation changes them.
    pub config: TradingConfig,
    /// Current posture; changed only by a buy or a sell.
    pub mode: Mode,
    /// Most recently observed or filled price; absent before the first observation.
    pub current_price: Option<u64>,
    /// Price of the last buy or sell; absent until the first trade.
    pub reference_price: Option<u64>,
    /// `(current - reference) / current`; absent while there is no reference price.
    pub price_diff_signal: Option<PriceDiff>,
}

impl TrackerState {
    /// The state invariant.
    pub open spec fn wf(self) -> bool {
        &&& (self.current_price matches Some(p) ==> p > 0)
        &&& (self.reference_price is Some ==> self.current_price is Some)
        &&& self.price_diff_signal == signal_of(self.current_price, self.reference_price)
        &&& (self.mode == Mode::Selling ==> (self.reference_price matches Some(r) && r
            > self.config.fill_offset))
    }

    /// A new engine: buying, with nothing observed and nothing traded.
    pub open spec fn fresh(config: TradingConfig) -> TrackerState {
        TrackerState {
            config,
            mode: Mode::Buying,
            current_price: None,
            reference_price: None,
            price_diff_signal: None,
        }
    }

    /// Buy policy: always when there is no reference yet, else when the signal
    /// lies below `selling_fee + minimum_discount`.
    pub open spec fn buy_allowed(self) -> bool {
        match self.price_diff_signal {
            None => true,
            Some(d) => d.below(self.config.buy_threshold()),
        }
    }

    /// Sell policy: never when there is no reference, else when the signal lies
    /// above `buying_fee + minimum_margin`.
    pub open spec fn sell_allowed(self) -> bool {
        match self.price_diff_signal {
            None => false,
            Some(d) => d.above(self.config.sell_threshold()),
        }
    }

    /// The state once price `p` has been observed.
    pub open spec fn observed(self, p: u64) -> TrackerState {
        TrackerState {
            current_price: Some(p),
            price_diff_signal: signal_of(Some(p), self.reference_price),
            ..self
        }
    }

    /// The price at which a buy fills.
    pub open spec fn buy_fill(self) -> int {
        self.current_price->0 + self.config.fill_offset
    }

    /// The price at which a sell fills.
    pub open spec fn sell_fill(self) -> int {
        self.current_price->0 - self.config.fill_offset
    }

    /// A buy fill is a price that `u64` can hold.
    pub open spec fn buy_fits(self) -> bool {
        self.current_price is Some && self.buy_fill() <= u64::MAX
    }

    /// A sell fill is a positive price.
    pub open spec fn sell_fits(self) -> bool {
        self.current_price is Some && self.sell_fill() > 0
    }

    /// The state after a trade at `fill` that leaves the engine in `mode`.
    pub open spec fn traded(self, fill: u64, mode: Mode) -> TrackerState {
        TrackerState {
            mode,
            current_price: Some(fill),
            reference_price: Some(fill),
            price_diff_signal: Some(price_diff(fill, fill)),
            ..self
        }
    }

    /// The state after a buy.
    pub open spec fn bought(self) -> TrackerState {
        self.traded(self.buy_fill() as u64, Mode::Selling)
    }

    /// The state after a sell.
    pub open spec fn sold(self) -> TrackerState {
        self.traded(self.sell_fill() as u64, Mode::Buying)
    }

    /// The decision taken on an observed price: the active check, then its
    /// trade if the check allows it. A buy whose fill price `u64` cannot hold
    /// is not made.
    pub open spec fn decided(self) -> (TrackerState, CycleOutcome) {
        match self.mode {
            Mode::Buying => if self.buy_allowed() && self.buy_fits() {
                (self.bought(), CycleOutcome::Bought)
            } else {
                (self, CycleOutcome::Held)
            },
            Mode::Selling => if self.sell_allowed() {
                (self.sold(), CycleOutcome::Sold)
            } else {
                (self, CycleOutcome::Held)
            },
        }
    }

    /// One cycle: observe the reading, then decide. Without a usable reading
    /// nothing changes.
    pub open spec fn cycled(self, reading: Option<u64>) -> (TrackerState, CycleOutcome) {
        if usable_reading(reading) {
            self.observed(reading->0).decided()
        } else {
            (self, CycleOutcome::NoPrice)
        }
    }
}

impl TrackerState {
    /// Every cycle keeps the state invariant.
    pub proof fn lemma_cycle_keeps_wf(self, reading: Option<u64>)
        requires
            self.wf(),
        ensures
            self.cycled(reading).0.wf(),
    {
        if usable_reading(reading) {
            let s = self.observed(reading->0);
            if s.mode == Mode::Selling && s.sell_allowed() {
                s.lemma_sell_allowed_fits();
            }
        }
    }

    /// When selling is allowed the current price lies above the reference
    /// price, so a sell fills at a positive price.
    pub proof fn lemma_sell_allowed_fits(self)
        requires
            self.wf(),
            self.mode == Mode::Selling,
            self.sell_allowed(),
        ensures
            self.current_price->0 > self.reference_price->0,
            self.sell_fits(),
    {
        let d = self.price_diff_signal->0;
        let t = self.config.sell_threshold();
        assert(t * d.price >= 0) by (nonlinear_arith)
            requires
                t >= 0,
                d.price > 0,
        ;
    }

    /// On a new engine the first observed price, whatever it is, allows a buy.
    pub proof fn lemma_first_buy_unconditional(config: TradingConfig, p: u64)
        requires
            p > 0,
        ensures
            TrackerState::fresh(config).observed(p).wf(),
            TrackerState::fresh(config).observed(p).buy_allowed(),
            !TrackerState::fresh(config).observed(p).sell_allowed(),
    {
    }

    /// A new engine with the given parameters.
    pub fn new(config: TradingConfig) -> (r: TrackerState)
        ensures
            r == TrackerState::fresh(config),
            r.wf(),
    {
        TrackerState {
            config,
            mode: Mode::Buying,
            current_price: None,
            reference_price: None,
            price_diff_signal: None,
        }
    }

    /// Takes the next reading of the price feed. A usable price becomes the
    /// current price and the signal is recomputed against the reference price;
    /// an absent or zero reading leaves the state as it was. Returns whether the
    /// reading was taken.
    pub fn observe_price(&mut self, reading: Option<u64>) -> (taken: bool)
        requires
            old(self).wf(),
        ensures
            taken == usable_reading(reading),
            taken ==> *final(self) == old(self).observed(reading->0),
            !taken ==> *final(self) == *old(self),
            final(self).wf(),
    {
        match reading {
            Some(p) => {
                if p == 0 {
                    return false;
                }
                self.current_price = Some(p);
                self.price_diff_signal = match self.reference_price {
                    None => None,
                    Some(r) => Some(PriceDiff::new(p, r)),
                };
                true
            },
            None => false,
        }
    }

    /// Whether the buy policy allows a buy now.
    pub fn eligible_to_buy(&self) -> (r: bool)
        requires
            self.wf(),
        ensures
            r == self.buy_allowed(),
    {
        match self.price_diff_signal {
            None => true,
            Some(d) => d.is_below(
                self.config.selling_fee as u64 + self.config.minimum_discount as u64,
            ),
        }
    }

    /// Whether the sell policy allows a sell now. Without a reference price
    /// (nothing bought yet) the answer is `false`.
    pub fn eligible_to_sell(&self) -> (r: bool)
        requires
            self.wf(),
        ensures
            r == self.sell_allowed(),
    {
        match self.price_diff_signal {
            None => false,
            Some(d) => d.is_above(
                self.config.buying_fee as u64 + self.config.minimum_margin as u64,
            ),
        }
    }

    /// Buys at the current price plus the fill offset, which becomes both the
    /// reference and the current price, and switches to selling.
    pub fn execute_buy(&mut self)
        requires
            old(self).wf(),
            old(self).mode == Mode::Buying,
            old(self).buy_fits(),
        ensures
            *final(self) == old(self).bought(),
            final(self).wf(),
    {
        let fill: u64 = self.current_price.unwrap() + self.config.fill_offset;
        self.record_trade(fill, Mode::Selling);
    }

    /// Sells at the current price minus the fill offset, which becomes both the
    /// reference and the current price, and switches to buying.
    pub fn execute_sell(&mut self)
        requires
            old(self).wf(),
            old(self).mode == Mode::Selling,
            old(self).sell_fits(),
        ensures
            *final(self) == old(self).sold(),
            final(self).wf(),
    {
        let fill: u64 = self.current_price.unwrap() - self.config.fill_offset;
        self.record_trade(fill, Mode::Buying);
    }

    fn record_trade(&mut self, fill: u64, mode: Mode)
        ensures
            *final(self) == old(self).traded(fill, mode),
    {
        self.mode = mode;
        self.current_price = Some(fill);
        self.reference_price = Some(fill);
        self.price_diff_signal = Some(PriceDiff::new(fill, fill));
    }

    /// One cycle of the engine: observe the reading, run the check of the
    /// current mode and, if it allows, trade and switch mode.
    pub fn run_cycle(&mut self, reading: Option<u64>) -> (r: CycleOutcome)
        requires
            old(self).wf(),
        ensures
            (*final(self), r) == old(self).cycled(reading),
            final(self).wf(),
    {
        proof {
            old(self).lemma_cycle_keeps_wf(reading);
        }
        if !self.observe_price(reading) {
            return CycleOutcome::NoPrice;
        }
        match self.mode {
            Mode::Buying => {
                let p: u64 = self.current_price.unwrap();
                if self.eligible_to_buy() && p <= u64::MAX - self.config.fill_offset {
                    self.execute_buy();
                    CycleOutcome::Bought
                } else {
                    CycleOutcome::Held
                }
            },
            Mode::Selling => {
                if self.eligible_to_sell() {
                    proof {
                        self.lemma_sell_allowed_fits();
                    }
                    self.execute_sell();
                    CycleOutcome::Sold
                } else {
                    CycleOutcome::Held
                }
            },
        }
    }
}

} // verus!
