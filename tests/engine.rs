use finbot::feed::SteppedFeed;
use finbot::signal::PriceDiff;
use finbot::tracker::{CycleOutcome, Mode, TrackerState, TradingConfig};

// One tick is a thousandth of the price unit; fractions are parts per million.
fn standard_config() -> TradingConfig {
    TradingConfig {
        buying_fee: 5_000,
        selling_fee: 5_000,
        minimum_margin: 10_000,
        minimum_discount: 5_000,
        fill_offset: 100,
    }
}

fn after_first_buy() -> TrackerState {
    let mut t = TrackerState::new(standard_config());
    assert!(t.observe_price(Some(1_000)));
    assert!(t.eligible_to_buy());
    t.execute_buy();
    t
}

#[test]
fn scenario_first_buy_at_cold_start() {
    let mut t = TrackerState::new(standard_config());
    assert_eq!(t.mode, Mode::Buying);
    assert!(t.observe_price(Some(1_000)));
    assert_eq!(t.price_diff_signal, None);
    assert!(t.eligible_to_buy());
    t.execute_buy();
    assert_eq!(t.reference_price, Some(1_100));
    assert_eq!(t.current_price, Some(1_100));
    assert_eq!(t.mode, Mode::Selling);
}

#[test]
fn scenario_unchanged_price_does_not_sell() {
    let mut t = after_first_buy();
    assert!(t.observe_price(Some(1_100)));
    assert_eq!(t.price_diff_signal, Some(PriceDiff { change: 0, price: 1_100 }));
    assert!(!t.eligible_to_sell());
    assert_eq!(t.run_cycle(Some(1_100)), CycleOutcome::Held);
    assert_eq!(t.mode, Mode::Selling);
}

#[test]
fn scenario_rise_above_margin_sells() {
    let mut t = after_first_buy();
    assert!(t.observe_price(Some(1_200)));
    // 100 / 1200 is about 0.083, above 0.015
    assert_eq!(t.price_diff_signal, Some(PriceDiff { change: 100, price: 1_200 }));
    assert!(t.eligible_to_sell());
    t.execute_sell();
    assert_eq!(t.mode, Mode::Buying);
    assert_eq!(t.reference_price, Some(1_100));
    assert!(t.reference_price.unwrap() < 1_200);
}

#[test]
fn scenario_sell_query_before_any_trade_is_false() {
    let mut t = TrackerState::new(standard_config());
    assert!(!t.eligible_to_sell());
    assert!(t.observe_price(Some(1_000)));
    assert_eq!(t.mode, Mode::Buying);
    assert!(!t.eligible_to_sell());
}

#[test]
fn buy_is_allowed_at_any_price_before_a_reference() {
    for p in [1u64, 7, 1_000, 1_000_000, u64::MAX] {
        let mut t = TrackerState::new(standard_config());
        assert!(t.observe_price(Some(p)));
        assert!(t.eligible_to_buy());
    }
}

#[test]
fn buy_threshold_is_strict() {
    // after a sell at 1000 the buy threshold is 0.01
    let mut t = after_first_buy();
    assert!(t.observe_price(Some(1_200)));
    t.execute_sell();
    assert_eq!(t.reference_price, Some(1_100));
    // (1111 - 1100) / 1111 is just under 0.01
    assert!(t.observe_price(Some(1_111)));
    assert!(t.eligible_to_buy());
    // (1112 - 1100) / 1112 is just over 0.01
    assert!(t.observe_price(Some(1_112)));
    assert!(!t.eligible_to_buy());
    // a price below the reference always qualifies
    assert!(t.observe_price(Some(900)));
    assert!(t.eligible_to_buy());
}

#[test]
fn sell_threshold_is_strict() {
    let config = TradingConfig {
        buying_fee: 5_000,
        selling_fee: 5_000,
        minimum_margin: 5_000,
        minimum_discount: 5_000,
        fill_offset: 100,
    };
    let mut t = TrackerState::new(config);
    assert!(t.observe_price(Some(900)));
    t.execute_buy();
    assert_eq!(t.reference_price, Some(1_000));
    // (1010 - 1000) / 1010 is under 0.01
    assert!(t.observe_price(Some(1_010)));
    assert!(!t.eligible_to_sell());
    // (1011 - 1000) / 1011 is over 0.01
    assert!(t.observe_price(Some(1_011)));
    assert!(t.eligible_to_sell());
}

#[test]
fn signal_equal_to_threshold_is_neither_below_nor_above() {
    let d = PriceDiff::new(1_000, 990);
    assert_eq!(d, PriceDiff { change: 10, price: 1_000 });
    // 10 / 1000 == 10_000 / 1_000_000
    assert!(!d.is_below(10_000));
    assert!(!d.is_above(10_000));
    assert!(d.is_below(10_001));
    assert!(d.is_above(9_999));
}

#[test]
fn signal_divides_by_current_price() {
    // 250 / 1250 is 0.2; over the reference price it would be 0.25
    let d = PriceDiff::new(1_250, 1_000);
    assert_eq!(d, PriceDiff { change: 250, price: 1_250 });
    assert!(d.is_below(200_001));
    assert!(!d.is_above(200_000));
    assert!(PriceDiff::new(800, 1_000).is_below(0));
    let mut t = after_first_buy();
    assert!(t.observe_price(Some(880)));
    assert_eq!(t.price_diff_signal, Some(PriceDiff { change: -220, price: 880 }));
}

#[test]
fn queries_are_idempotent() {
    let mut t = after_first_buy();
    assert!(t.observe_price(Some(1_150)));
    let a = t.eligible_to_sell();
    let b = t.eligible_to_sell();
    assert_eq!(a, b);
    let c = t.eligible_to_buy();
    let d = t.eligible_to_buy();
    assert_eq!(c, d);
}

#[test]
fn absent_or_zero_reading_keeps_state() {
    let mut t = after_first_buy();
    assert!(t.observe_price(Some(1_150)));
    let before = t;
    assert!(!t.observe_price(None));
    assert!(!t.observe_price(Some(0)));
    assert_eq!(t.current_price, before.current_price);
    assert_eq!(t.price_diff_signal, before.price_diff_signal);
    assert_eq!(t.run_cycle(None), CycleOutcome::NoPrice);
    assert_eq!(t.run_cycle(Some(0)), CycleOutcome::NoPrice);
    assert_eq!(t.mode, Mode::Selling);
    assert_eq!(t.current_price, Some(1_150));
}

#[test]
fn buy_whose_fill_overflows_is_held() {
    let mut t = TrackerState::new(standard_config());
    assert_eq!(t.run_cycle(Some(u64::MAX)), CycleOutcome::Held);
    assert_eq!(t.mode, Mode::Buying);
    assert_eq!(t.reference_price, None);
    assert_eq!(t.run_cycle(Some(u64::MAX - 100)), CycleOutcome::Bought);
    assert_eq!(t.reference_price, Some(u64::MAX));
}

#[test]
fn modes_alternate_with_trades() {
    let mut t = TrackerState::new(standard_config());
    let readings = [1_000u64, 1_100, 1_200, 1_150, 1_050, 990, 1_000, 1_300, 1_300];
    let mut last_trade = None;
    for p in readings {
        let mode = t.mode;
        let o = t.run_cycle(Some(p));
        match o {
            CycleOutcome::Bought => {
                assert_eq!(mode, Mode::Buying);
                assert_eq!(t.mode, Mode::Selling);
                assert_ne!(last_trade, Some(CycleOutcome::Bought));
                last_trade = Some(o);
            }
            CycleOutcome::Sold => {
                assert_eq!(mode, Mode::Selling);
                assert_eq!(t.mode, Mode::Buying);
                assert_ne!(last_trade, Some(CycleOutcome::Sold));
                last_trade = Some(o);
            }
            _ => assert_eq!(t.mode, mode),
        }
    }
    assert_eq!(last_trade, Some(CycleOutcome::Sold));
}

#[test]
fn run_cycles_counts_trades() {
    let mut t = TrackerState::new(standard_config());
    let readings = vec![Some(1_000), None, Some(1_100), Some(1_200), Some(0), Some(1_300)];
    // buy at 1100, hold at 1100, sell at 1100 (from 1200), hold at 1300
    assert_eq!(t.run_cycles(&readings), 2);
    assert_eq!(t.mode, Mode::Buying);
    assert_eq!(t.reference_price, Some(1_100));
    assert_eq!(t.current_price, Some(1_300));
    assert_eq!(t.price_diff_signal, Some(PriceDiff { change: 200, price: 1_300 }));
}

#[test]
fn signal_absent_until_first_trade() {
    let mut t = TrackerState::new(TradingConfig { fill_offset: 0, ..standard_config() });
    // the first buy is immediate, and from then on there is a signal
    assert_eq!(t.run_cycle(Some(1_000)), CycleOutcome::Bought);
    assert!(t.price_diff_signal.is_some());
    let mut cold = TrackerState::new(standard_config());
    assert_eq!(cold.price_diff_signal, None);
    assert!(!cold.observe_price(None));
    assert_eq!(cold.price_diff_signal, None);
    assert!(cold.observe_price(Some(5_000)));
    assert_eq!(cold.price_diff_signal, None);
}

#[test]
fn stepped_feed_rises_from_base() {
    let feed = SteppedFeed { base: 1_000, step: 100 };
    assert_eq!(feed.next_price(None), Some(1_000));
    assert_eq!(feed.next_price(Some(1_000)), Some(1_100));
    assert_eq!(feed.next_price(Some(u64::MAX - 100)), Some(u64::MAX));
    assert_eq!(feed.next_price(Some(u64::MAX - 99)), None);
}

#[test]
fn stepped_feed_drives_the_engine() {
    let feed = SteppedFeed { base: 1_000, step: 100 };
    let mut t = TrackerState::new(standard_config());
    let mut outcomes = Vec::new();
    for _ in 0..4 {
        let reading = feed.next_price(t.current_price);
        outcomes.push(t.run_cycle(reading));
    }
    // 1000: buy at 1100; 1200: sell at 1100; 1200: hold; 1300: hold
    assert_eq!(
        outcomes,
        vec![CycleOutcome::Bought, CycleOutcome::Sold, CycleOutcome::Held, CycleOutcome::Held]
    );
    assert_eq!(t.current_price, Some(1_300));
}
