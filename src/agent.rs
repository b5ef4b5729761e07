//! An agent: one strategy driven through one pass, counting its trades.
use vstd::prelude::*;
use crate::fixed::RATIO_ONE;
use crate::pair_info::PairInfo;
use crate::trade_strategy::{
    lemma_tick_keeps_one_side, AccountSliceState, BasicTradeStrategy, Side, TradeAction, TradeStrategy, FEE_PCT, START_BALANCE, worth,
};

verus! {

/// Why strategy parameters were refused.
#[derive(Debug, PartialEq, Eq, Structural)]
pub enum ParamsError {
    /// `min_return` is not above one (10000 basis points).
    MinReturnTooLow,
    /// The smoothing window is zero ticks long.
    ZeroDuration,
}

/// Parameters of the strategy: the trade threshold in basis points and the
/// smoothing window in ticks.
#[derive(Debug, Clone, Copy, PartialEq, Eq, Structural)]
pub struct AgentParams {
    pub min_return: u64,
    pub ma_duration: u32,
}

impl AgentParams {
    pub open spec fn wf(&self) -> bool {
        self.min_return > RATIO_ONE && self.ma_duration > 0
    }

    /// Checks and bundles the parameters.
    pub fn new(min_return: u64, ma_duration: u32) -> (r: Result<AgentParams, ParamsError>)
        ensures
            min_return <= RATIO_ONE <==> r == Err::<AgentParams, ParamsError>(ParamsError::MinReturnTooLow),
            (min_return > RATIO_ONE && ma_duration == 0) <==> r == Err::<AgentParams, ParamsError>(ParamsError::ZeroDuration),
            r is Ok ==> r->Ok_0 == (AgentParams { min_return, ma_duration }) && r->Ok_0.wf(),
    {
        if min_return <= RATIO_ONE {
            Err(ParamsError::MinReturnTooLow)
        } else if ma_duration == 0 {
            Err(ParamsError::ZeroDuration)
        } else {
            Ok(AgentParams { min_return, ma_duration })
        }
    }
}

pub struct Agent {
    pub trade_strategy: BasicTradeStrategy,
    pub last_known_price: u64,
    pub trades: u32,
}

/// The agent that a pass starts with.
pub open spec fn fresh_agent(p: AgentParams) -> Agent {
    Agent {
        trade_strategy: BasicTradeStrategy {
            min_return: p.min_return,
            fee_pct: FEE_PCT,
            account: AccountSliceState { bal_top: 0, bal_bot: START_BALANCE, side: Side::BUY },
            moving_price_mark: 0,
            ma_duration: p.ma_duration,
        },
        last_known_price: 0,
        trades: 0,
    }
}

/// The agent after each price of `prices` in turn.
pub open spec fn feed(a: Agent, prices: Seq<u64>) -> Agent
    decreases prices.len(),
{
    if prices.len() == 0 {
        a
    } else {
        feed(a, prices.drop_last()).after_handle(prices.last())
    }
}

/// The actions taken on each price of `prices` in turn.
pub open spec fn actions(a: Agent, prices: Seq<u64>) -> Seq<TradeAction>
    decreases prices.len(),
{
    if prices.len() == 0 {
        Seq::empty()
    } else {
        actions(a, prices.drop_last()).push(
            feed(a, prices.drop_last()).trade_strategy.action_for(prices.last()),
        )
    }
}

/// At every tick of any price sequence an agent holds one side only: the
/// balance of the asset it does not hold is zero.
pub proof fn lemma_one_side_at_every_tick(a: Agent, prices: Seq<u64>)
    requires
        a.wf(),
    ensures
        forall|k: int| 0 <= k <= prices.len() ==> #[trigger] feed(a, prices.take(k)).wf(),
{
    assert forall|k: int| 0 <= k <= prices.len() implies #[trigger] feed(a, prices.take(k)).wf() by {
        lemma_feed_wf(a, prices.take(k));
    }
}

proof fn lemma_feed_wf(a: Agent, prices: Seq<u64>)
    requires
        a.wf(),
    ensures
        feed(a, prices).wf(),
    decreases prices.len(),
{
    if prices.len() > 0 {
        lemma_feed_wf(a, prices.drop_last());
        lemma_tick_keeps_one_side(feed(a, prices.drop_last()).trade_strategy, prices.last());
    }
}

/// Two agents made from the same parameters and fed the same prices take
/// the same actions and end in the same state, with the same net worth.
pub proof fn lemma_agents_deterministic(p: AgentParams, q: AgentParams, prices: Seq<u64>)
    requires
        p == q,
    ensures
        actions(fresh_agent(p), prices) == actions(fresh_agent(q), prices),
        feed(fresh_agent(p), prices) == feed(fresh_agent(q), prices),
        feed(fresh_agent(p), prices).net_worth_spec() == feed(fresh_agent(q), prices).net_worth_spec(),
{
}

impl Agent {
    pub open spec fn wf(&self) -> bool {
        self.trade_strategy.wf()
    }

    /// The agent after a tick at `price`.
    pub open spec fn after_handle(&self, price: u64) -> Agent {
        Agent {
            trade_strategy: self.trade_strategy.after_tick(price),
            last_known_price: price,
            trades: if self.trade_strategy.action_for(price) == TradeAction::NONE {
                self.trades
            } else {
                (self.trades + 1) as u32
            },
        }
    }

    pub open spec fn net_worth_spec(&self) -> int {
        let acct = self.trade_strategy.account;
        worth(acct.bal_top as int, acct.bal_bot as int, self.last_known_price as int)
    }

    pub fn new(params: &AgentParams) -> (r: Agent)
        requires
            params.wf(),
        ensures
            r == fresh_agent(*params),
            r.wf(),
    {
        Agent {
            trade_strategy: BasicTradeStrategy::new(params.min_return, params.ma_duration),
            last_known_price: 0,
            trades: 0,
        }
    }

    /// Hands one tick to the strategy and counts the trade it makes.
    pub fn handle(&mut self, _idx: u32, scaled_price: u64, pair: &PairInfo)
        requires
            old(self).wf(),
            old(self).trades < u32::MAX,
        ensures
            *final(self) == old(self).after_handle(scaled_price),
            final(self).wf(),
    {
        let trade_action = self.trade_strategy.process_tick(scaled_price, pair);
        match trade_action {
            TradeAction::BUY => self.trades = self.trades + 1,
            TradeAction::SELL => self.trades = self.trades + 1,
            TradeAction::NONE => {},
        }
        self.last_known_price = scaled_price;
    }

    /// Worth of the account at the last price seen, in bottom-asset units.
    pub fn net_worth(&self) -> (r: u64)
        ensures
            r as int == self.net_worth_spec(),
    {
        self.trade_strategy.net_worth(self.last_known_price)
    }

    pub fn trades(&self) -> (r: u32)
        ensures
            r == self.trades,
    {
        self.trades
    }
}

} // verus!
