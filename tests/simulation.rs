use pair_sim::agent::{Agent, AgentParams, ParamsError};
use pair_sim::fixed::{mul_div, PRICE_ONE};
use pair_sim::pair_info::{HasPrice, PairInfo};
use pair_sim::pair_series::{PairSeries, SeriesError};
use pair_sim::price_stream::EndlessPairStream;
use pair_sim::sampling::{run_pass, sample_passes, PassOutcome};
use pair_sim::stats::summarize;
use pair_sim::trade_strategy::{
    AccountSliceState, BasicTradeStrategy, Side, TradeAction, TradeStrategy, START_BALANCE,
};

fn units(x: u64) -> u64 {
    x * PRICE_ONE
}

fn series_of(tops: &[u64]) -> PairSeries {
    let top: Vec<u64> = tops.iter().map(|t| units(*t)).collect();
    let bot: Vec<u64> = tops.iter().map(|_| units(1)).collect();
    PairSeries::new(&top, &bot).unwrap()
}

fn pair(tick: usize, top: u64) -> PairInfo {
    PairInfo { tick, top_price_usd: units(top), bot_price_usd: units(1) }
}

#[test]
fn mul_div_rounds_down_and_saturates() {
    assert_eq!(mul_div(7, 3, 2), 10);
    assert_eq!(mul_div(u64::MAX, u64::MAX, 1), u64::MAX);
    assert_eq!(mul_div(u64::MAX, 2, 2), u64::MAX);
}

#[test]
fn pair_price_is_top_over_bottom() {
    let p = PairInfo { tick: 0, top_price_usd: units(3), bot_price_usd: units(2) };
    assert_eq!(p.price(), 1_500_000);
}

#[test]
fn series_rejects_mismatched_lengths() {
    let r = PairSeries::new(&vec![1, 2], &vec![1]);
    assert!(matches!(r, Err(SeriesError::LengthMismatch)));
}

#[test]
fn series_rejects_empty() {
    let r = PairSeries::new(&vec![], &vec![]);
    assert!(matches!(r, Err(SeriesError::Empty)));
}

#[test]
fn series_rejects_zero_bottom_price() {
    let r = PairSeries::new(&vec![units(1), units(2)], &vec![units(1), 0]);
    assert!(matches!(r, Err(SeriesError::ZeroPrice)));
}

#[test]
fn series_rejects_zero_price() {
    let r = PairSeries::new(&vec![0], &vec![units(1)]);
    assert!(matches!(r, Err(SeriesError::ZeroPrice)));
}

#[test]
fn series_pairs_by_index() {
    let s = PairSeries::new(&vec![5, 6], &vec![7, 8]).unwrap();
    assert_eq!(s.pairs.len(), 2);
    assert_eq!(s.pairs[1].tick, 1);
    assert_eq!(s.pairs[1].top_price_usd, 6);
    assert_eq!(s.pairs[1].bot_price_usd, 8);
}

#[test]
fn stream_emits_each_index_once() {
    let s = series_of(&[100, 105, 95]);
    let stream = EndlessPairStream { series: &s };
    let ticks = stream.iterate(10, 7);
    assert_eq!(ticks.len(), 10);
    for (i, t) in ticks.iter().enumerate() {
        assert_eq!(t.index as usize, i);
        assert_eq!(t.pair_idx, (7 + i) % 3);
    }
}

#[test]
fn stream_with_no_iterations_is_empty() {
    let s = series_of(&[100, 105]);
    let stream = EndlessPairStream { series: &s };
    assert!(stream.iterate(0, 0).is_empty());
}

#[test]
fn stream_rescales_at_each_wrap() {
    let s = series_of(&[100, 110]);
    let stream = EndlessPairStream { series: &s };
    let prices: Vec<u64> = stream.iterate(5, 0).iter().map(|t| t.scaled_price).collect();
    assert_eq!(prices, vec![units(100), units(110), units(110), units(121), units(121)]);
}

#[test]
fn stream_is_continuous_across_wrap() {
    let s = series_of(&[100, 103, 97, 120]);
    let stream = EndlessPairStream { series: &s };
    let ticks = stream.iterate(12, 2);
    for w in ticks.windows(2) {
        if w[0].pair_idx == 3 {
            assert_eq!(w[1].pair_idx, 0);
            assert!(w[1].scaled_price <= w[0].scaled_price);
            assert!(w[0].scaled_price - w[1].scaled_price <= units(100) / PRICE_ONE + 1);
        }
    }
}

#[test]
fn single_point_series_keeps_scale() {
    let s = series_of(&[42]);
    let stream = EndlessPairStream { series: &s };
    for t in stream.iterate(6, 3) {
        assert_eq!(t.scaled_price, units(42));
        assert_eq!(t.pair_idx, 0);
    }
}

#[test]
fn start_offset_wraps_modulo_length() {
    let s = series_of(&[1, 2, 3]);
    let stream = EndlessPairStream { series: &s };
    assert_eq!(stream.iterate(1, 4)[0].pair_idx, 1);
    assert_eq!(stream.iterate(1, 4)[0].scaled_price, units(2));
}

#[test]
fn params_reject_low_min_return() {
    assert_eq!(AgentParams::new(10_000, 5), Err(ParamsError::MinReturnTooLow));
}

#[test]
fn params_reject_zero_duration() {
    assert_eq!(AgentParams::new(10_150, 0), Err(ParamsError::ZeroDuration));
}

#[test]
fn params_accept_valid() {
    let p = AgentParams::new(10_150, 60).unwrap();
    assert_eq!(p.min_return, 10_150);
    assert_eq!(p.ma_duration, 60);
}

#[test]
fn account_starts_on_bottom() {
    let a = AccountSliceState::default();
    assert_eq!(a.bal_top, 0);
    assert_eq!(a.bal_bot, START_BALANCE);
    assert_eq!(a.side, Side::BUY);
}

#[test]
fn price_at_baseline_never_buys() {
    let mut s = BasicTradeStrategy::new(10_200, 2);
    let p = pair(0, 100);
    assert_eq!(s.process_tick(units(100), &p), TradeAction::NONE);
    assert_eq!(s.process_tick(units(100), &p), TradeAction::NONE);
    assert_eq!(s.account.side, Side::BUY);
}

#[test]
fn price_just_below_threshold_buys() {
    let mut s = BasicTradeStrategy::new(10_200, 2);
    let p = pair(0, 100);
    s.process_tick(units(102), &p);
    // 102 / 1.02 = 100; one unit below it buys
    assert_eq!(s.process_tick(units(100) - 1, &p), TradeAction::BUY);
    assert_eq!(s.account.side, Side::SELL);
    assert_eq!(s.account.bal_bot, 0);
    assert!(s.account.bal_top > 0);
}

#[test]
fn price_at_buy_threshold_does_not_buy() {
    let mut s = BasicTradeStrategy::new(10_200, 2);
    let p = pair(0, 100);
    s.process_tick(units(102), &p);
    assert_eq!(s.process_tick(units(100), &p), TradeAction::NONE);
}

#[test]
fn price_just_above_threshold_sells() {
    let mut s = BasicTradeStrategy::new(10_200, 1_000_000);
    let p = pair(0, 100);
    s.process_tick(units(100), &p);
    assert_eq!(s.process_tick(units(90), &p), TradeAction::BUY);
    // baseline is now just below 100; at 100 * 1.02 + one unit it sells
    let mark = s.moving_price_mark;
    assert_eq!(s.process_tick(mark, &p), TradeAction::NONE);
    let mark = s.moving_price_mark;
    let above = mul_div(mark, 10_200, 10_000) + 1;
    assert_eq!(s.process_tick(above, &p), TradeAction::SELL);
    assert_eq!(s.account.side, Side::BUY);
    assert_eq!(s.account.bal_top, 0);
}

#[test]
fn baseline_smooths_toward_price() {
    let mut s = BasicTradeStrategy::new(10_200, 4);
    let p = pair(0, 100);
    s.process_tick(units(100), &p);
    assert_eq!(s.moving_price_mark, units(100));
    s.process_tick(units(108), &p);
    assert_eq!(s.moving_price_mark, units(102));
    s.process_tick(units(98), &p);
    assert_eq!(s.moving_price_mark, units(101));
}

#[test]
fn net_worth_counts_both_balances() {
    let mut s = BasicTradeStrategy::new(10_200, 2);
    assert_eq!(s.net_worth(units(50)), START_BALANCE);
    s.account = AccountSliceState { bal_top: units(2), bal_bot: 0, side: Side::SELL };
    assert_eq!(s.net_worth(units(50)), units(100));
}

#[test]
fn hand_traced_pass() {
    let s = series_of(&[100, 105, 95, 100]);
    let params = AgentParams::new(10_200, 2).unwrap();
    let mut agent = Agent::new(&params);
    let stream = EndlessPairStream { series: &s };
    let mut acts = vec![];
    for t in stream.iterate(4, 0) {
        let before = agent.trades();
        agent.handle(t.index, t.scaled_price, &s.pairs[t.pair_idx]);
        acts.push(agent.trades() - before);
    }
    assert_eq!(acts, vec![0, 0, 1, 0]);
    assert_eq!(agent.trade_strategy.account.side, Side::SELL);
    // 1000 / 95 / 1.0025, rounded down at each step
    assert_eq!(agent.trade_strategy.account.bal_top, 10_500_064);
    assert_eq!(agent.net_worth(), 1_050_006_400);
    assert_eq!(agent.trades(), 1);
    let outcome = run_pass(&s, &params, 4, 0);
    assert_eq!(outcome, PassOutcome { net_worth: 1_050_006_400, trades: 1 });
}

#[test]
fn agents_with_same_ticks_agree() {
    let s = series_of(&[100, 97, 104, 99, 108, 92]);
    let params = AgentParams::new(10_150, 3).unwrap();
    let a = run_pass(&s, &params, 500, 11);
    let b = run_pass(&s, &params, 500, 11);
    assert_eq!(a, b);
}

#[test]
fn one_side_held_at_every_tick() {
    let s = series_of(&[100, 97, 104, 99, 108, 92]);
    let params = AgentParams::new(10_150, 3).unwrap();
    let mut agent = Agent::new(&params);
    let stream = EndlessPairStream { series: &s };
    for t in stream.iterate(200, 1) {
        agent.handle(t.index, t.scaled_price, &s.pairs[t.pair_idx]);
        let acct = agent.trade_strategy.account;
        match acct.side {
            Side::BUY => assert!(acct.bal_top == 0 && acct.bal_bot > 0),
            Side::SELL => assert!(acct.bal_bot == 0 && acct.bal_top > 0),
        }
    }
    assert!(agent.trades() > 0);
}

#[test]
fn summary_of_known_passes() {
    let params = AgentParams::new(10_150, 3).unwrap();
    let outcomes = vec![
        PassOutcome { net_worth: 10, trades: 1 },
        PassOutcome { net_worth: 40, trades: 4 },
        PassOutcome { net_worth: 25, trades: 2 },
    ];
    let st = summarize(params, &outcomes).unwrap();
    assert_eq!(st.samples, 3);
    assert_eq!(st.min, 10);
    assert_eq!(st.max, 40);
    assert_eq!(st.mean, 25);
    assert_eq!(st.total_trades, 7);
    assert!(st.min <= st.mean && st.mean <= st.max);
}

#[test]
fn summary_mean_rounds_down() {
    let params = AgentParams::new(10_150, 3).unwrap();
    let outcomes = vec![
        PassOutcome { net_worth: 1, trades: 0 },
        PassOutcome { net_worth: 2, trades: 1 },
    ];
    let st = summarize(params, &outcomes).unwrap();
    assert_eq!(st.mean, 1);
}

#[test]
fn summary_of_no_passes_is_none() {
    let params = AgentParams::new(10_150, 3).unwrap();
    assert!(summarize(params, &vec![]).is_none());
}

#[test]
fn four_rows_of_eight_samples() {
    let s = series_of(&[100, 97, 104, 99, 108, 92]);
    let params = AgentParams::new(10_150, 3).unwrap();
    let mut rows = vec![];
    for _ in 0..4 {
        let passes = sample_passes(&s, &params, 8, 50);
        assert_eq!(passes.len(), 8);
        rows.push(summarize(params, &passes).unwrap());
    }
    assert_eq!(rows.len(), 4);
    for r in rows {
        assert_eq!(r.samples, 8);
        assert!(r.min <= r.mean && r.mean <= r.max);
    }
}

#[test]
fn sampled_pass_matches_some_start() {
    let s = series_of(&[100, 97, 104, 99, 108, 92]);
    let params = AgentParams::new(10_150, 3).unwrap();
    let passes = sample_passes(&s, &params, 3, 30);
    for p in passes {
        let found = (0..6u32).any(|start| run_pass(&s, &params, 30, start) == p);
        assert!(found);
    }
}
