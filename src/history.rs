use vstd::prelude::*;

use crate::tracker::{signal_of, CycleOutcome, Mode, TrackerState};

verus! {

/// The state after one cycle per reading, in order.
pub open spec fn run(s: TrackerState, readings: Seq<Option<u64>>) -> TrackerState
    decreases readings.len(),
{
    if readings.len() == 0 {
        s
    } else {
        run(s, readings.drop_last()).cycled(readings.last()).0
    }
}

/// Whether an outcome is a trade.
pub open spec fn is_trade(o: CycleOutcome) -> bool {
    o == CycleOutcome::Bought || o == CycleOutcome::Sold
}

/// How many of those cycles traded.
pub open spec fn trade_count(s: TrackerState, readings: Seq<Option<u64>>) -> nat
    decreases readings.len(),
{
    if readings.len() == 0 {
        0
    } else {
        let o = run(s, readings.drop_last()).cycled(readings.last()).1;
        trade_count(s, readings.drop_last()) + if is_trade(o) {
            1nat
        } else {
            0nat
        }
    }
}

/// The other mode.
pub open spec fn flipped(m: Mode) -> Mode {
    match m {
        Mode::Buying => Mode::Selling,
        Mode::Selling => Mode::Buying,
    }
}

/// Any sequence of cycles keeps the state invariant.
pub proof fn lemma_run_keeps_wf(s: TrackerState, readings: Seq<Option<u64>>)
    requires
        s.wf(),
    ensures
        run(s, readings).wf(),
    decreases readings.len(),
{
    if readings.len() > 0 {
        lemma_run_keeps_wf(s, readings.drop_last());
        run(s, readings.drop_last()).lemma_cycle_keeps_wf(readings.last());
    }
}

/// Starting before any trade, the signal is absent after a sequence of
/// cycles exactly when none of them traded, and is otherwise
/// `(current - reference) / current`.
pub proof fn lemma_signal_absent_until_trade(s: TrackerState, readings: Seq<Option<u64>>)
    requires
        s.wf(),
        s.reference_price is None,
    ensures
        run(s, readings).price_diff_signal is None <==> trade_count(s, readings) == 0,
        run(s, readings).price_diff_signal == signal_of(
            run(s, readings).current_price,
            run(s, readings).reference_price,
        ),
    decreases readings.len(),
{
    lemma_run_keeps_wf(s, readings);
    if readings.len() > 0 {
        lemma_signal_absent_until_trade(s, readings.drop_last());
        lemma_run_keeps_wf(s, readings.drop_last());
    }
}

/// A buy happens only in buying mode and leads to selling mode, a sell only in
/// selling mode and leads to buying mode, and a cycle without a trade keeps
/// the mode.
pub proof fn lemma_cycle_alternates(s: TrackerState, reading: Option<u64>)
    requires
        s.wf(),
    ensures
        s.cycled(reading).1 == CycleOutcome::Bought ==> s.mode == Mode::Buying
            && s.cycled(reading).0.mode == Mode::Selling,
        s.cycled(reading).1 == CycleOutcome::Sold ==> s.mode == Mode::Selling
            && s.cycled(reading).0.mode == Mode::Buying,
        !is_trade(s.cycled(reading).1) ==> s.cycled(reading).0.mode == s.mode,
{
}

/// After a sequence of cycles the mode has flipped once per trade: trades
/// strictly alternate between buys and sells.
pub proof fn lemma_mode_follows_trades(s: TrackerState, readings: Seq<Option<u64>>)
    requires
        s.wf(),
    ensures
        run(s, readings).mode == if trade_count(s, readings) % 2 == 0 {
            s.mode
        } else {
            flipped(s.mode)
        },
    decreases readings.len(),
{
    if readings.len() > 0 {
        lemma_mode_follows_trades(s, readings.drop_last());
        lemma_run_keeps_wf(s, readings.drop_last());
        lemma_cycle_alternates(run(s, readings.drop_last()), readings.last());
    }
}

impl TrackerState {
    /// Runs one cycle per reading, in order, and returns how many traded.
    pub fn run_cycles(&mut self, readings: &Vec<Option<u64>>) -> (trades: usize)
        requires
            old(self).wf(),
        ensures
            *final(self) == run(*old(self), readings@),
            trades == trade_count(*old(self), readings@),
            final(self).wf(),
    {
        let ghost start = *self;
        let mut trades: usize = 0;
        let mut i: usize = 0;
        while i < readings.len()
            invariant
                0 <= i <= readings.len(),
                self.wf(),
                *self == run(start, readings@.subrange(0, i as int)),
                trades == trade_count(start, readings@.subrange(0, i as int)),
                trades <= i,
            decreases readings.len() - i,
        {
            let ghost prefix = readings@.subrange(0, i as int);
            let ghost next = readings@.subrange(0, i + 1);
            assert(next.drop_last() =~= prefix);
            let o = self.run_cycle(readings[i]);
            if o == CycleOutcome::Bought || o == CycleOutcome::Sold {
                trades = trades + 1;
            }
            i = i + 1;
        }
        assert(readings@.subrange(0, i as int) =~= readings@);
        trades
    }
}

} // verus!
