//! The threshold strategy: buy the top asset when its price falls far enough
//! below a smoothed baseline, sell it when the price rises far enough above.
use vstd::prelude::*;
use crate::fixed::{lemma_mul_bound, mul_div, mul_div_spec, PRICE_ONE, RATIO_ONE};
use crate::pair_info::PairInfo;
use vstd::arithmetic::div_mod::{lemma_div_is_ordered, lemma_div_multiples_vanish};

verus! {

/// Fee and slippage charged on every trade, in basis points (1.0025).
pub const FEE_PCT: u64 = 10_025;

/// Opening balance of the bottom asset, in fixed-point units (1000.0).
pub const START_BALANCE: u64 = 1_000_000_000;

/// What a tick made the strategy do.
#[derive(Debug, PartialEq, Eq, Structural, Clone, Copy)]
pub enum TradeAction {
    BUY,
    SELL,
    NONE,
}

/// Which asset is held: `BUY` while holding the bottom asset (the next trade
/// buys the top one), `SELL` while holding the top asset.
#[derive(Debug, PartialEq, Eq, Structural, Clone, Copy)]
pub enum Side {
    BUY,
    SELL,
}

/// Balances of the two assets and the side that is held.
#[derive(Debug, PartialEq, Eq, Structural, Clone, Copy)]
pub struct AccountSliceState {
    pub bal_top: u64,
    pub bal_bot: u64,
    pub side: Side,
}

impl AccountSliceState {
    /// Only the held asset can have a balance.
    pub open spec fn wf(&self) -> bool {
        match self.side {
            Side::BUY => self.bal_top == 0,
            Side::SELL => self.bal_bot == 0,
        }
    }

    /// Exactly one of the two balances is nonzero: the one of the held asset.
    pub open spec fn holds_one(&self) -> bool {
        match self.side {
            Side::BUY => self.bal_top == 0 && self.bal_bot > 0,
            Side::SELL => self.bal_bot == 0 && self.bal_top > 0,
        }
    }

    pub fn default() -> (r: AccountSliceState)
        ensures
            r.bal_top == 0,
            r.bal_bot == START_BALANCE,
            r.side == Side::BUY,
            r.wf(),
            r.holds_one(),
    {
        AccountSliceState { bal_top: 0, bal_bot: START_BALANCE, side: Side::BUY }
    }
}

/// The price has fallen below `mark / min_return` (ratio in basis points).
pub open spec fn buy_triggered(price: int, mark: int, min_return: int) -> bool {
    price > 0 && price * min_return < mark * RATIO_ONE
}

/// The price has risen above `mark * min_return` (ratio in basis points).
pub open spec fn sell_triggered(price: int, mark: int, min_return: int) -> bool {
    price * RATIO_ONE > mark * min_return
}

/// Top asset bought with `bal_bot` at `price`, less the fee.
pub open spec fn bought(bal_bot: int, price: int, fee: int) -> int {
    mul_div_spec(mul_div_spec(bal_bot, PRICE_ONE as int, price), RATIO_ONE as int, fee)
}

/// Bottom asset got for `bal_top` at `price`, less the fee.
pub open spec fn sold(bal_top: int, price: int, fee: int) -> int {
    mul_div_spec(mul_div_spec(bal_top, price, PRICE_ONE as int), RATIO_ONE as int, fee)
}

/// One step of exponential smoothing: `mark + (price - mark) / duration`,
/// the quotient rounded toward zero.
pub open spec fn smooth(mark: int, price: int, duration: int) -> int {
    if price >= mark {
        mark + (price - mark) / duration
    } else {
        mark - (mark - price) / duration
    }
}

/// `bal_top * price + bal_bot` in bottom-asset units, held at `u64::MAX`.
pub open spec fn worth(bal_top: int, bal_bot: int, price: int) -> int {
    let w = mul_div_spec(bal_top, price, PRICE_ONE as int) + bal_bot;
    if w > u64::MAX as int {
        u64::MAX as int
    } else {
        w
    }
}

/// Trade thresholds. While holding the bottom asset with baseline `B`, a
/// price equal to `B` never buys and a positive price below `B / min_return`
/// always buys; while holding the top asset, a price equal to `B` never sells
/// and a price above `B * min_return` always sells.
pub proof fn lemma_trade_threshold(s: BasicTradeStrategy, price: u64)
    requires
        s.wf(),
        s.moving_price_mark > 0,
    ensures
        s.account.side == Side::BUY && price == s.moving_price_mark ==> s.action_for(price) != TradeAction::BUY,
        s.account.side == Side::BUY && 0 < price
            && (price as int) * (s.min_return as int) < (s.moving_price_mark as int) * (RATIO_ONE as int)
            ==> s.action_for(price) == TradeAction::BUY,
        s.account.side == Side::SELL && price == s.moving_price_mark ==> s.action_for(price) != TradeAction::SELL,
        s.account.side == Side::SELL
            && (price as int) * (RATIO_ONE as int) > (s.moving_price_mark as int) * (s.min_return as int)
            ==> s.action_for(price) == TradeAction::SELL,
{
    let b = s.moving_price_mark as int;
    let r = s.min_return as int;
    assert(b * r >= b * (RATIO_ONE as int)) by (nonlinear_arith)
        requires
            b > 0,
            r > RATIO_ONE as int,
    ;
}

/// A tick keeps the strategy well formed: only the held asset has a balance.
pub proof fn lemma_tick_keeps_one_side(s: BasicTradeStrategy, price: u64)
    requires
        s.wf(),
    ensures
        s.after_tick(price).wf(),
{
}

/// Exactly one balance stays nonzero through a tick whose trade, if any, is
/// worth at least two fixed-point units before the fee (smaller amounts
/// round down to nothing).
pub proof fn lemma_tick_keeps_exactly_one(s: BasicTradeStrategy, price: u64)
    requires
        s.wf(),
        s.account.holds_one(),
        s.account.side == Side::BUY ==> (s.account.bal_bot as int) * (PRICE_ONE as int) >= 2 * price,
        s.account.side == Side::SELL ==> (s.account.bal_top as int) * (price as int) >= 2 * (PRICE_ONE as int),
    ensures
        s.after_tick(price).account.holds_one(),
{
    let fee = FEE_PCT as int;
    let one = PRICE_ONE as int;
    match s.action_for(price) {
        TradeAction::BUY => {
            let b = s.account.bal_bot as int;
            let p = price as int;
            lemma_div_is_ordered(2 * p, b * one, p);
            lemma_div_multiples_vanish(2, p);
            assert(2 * p == p * 2);
            let q = mul_div_spec(b, one, p);
            assert(q >= 2);
            lemma_div_is_ordered(2 * (RATIO_ONE as int), q * (RATIO_ONE as int), fee);
        },
        TradeAction::SELL => {
            let t = s.account.bal_top as int;
            let p = price as int;
            lemma_div_is_ordered(2 * one, t * p, one);
            let q = mul_div_spec(t, p, one);
            assert(q >= 2);
            lemma_div_is_ordered(2 * (RATIO_ONE as int), q * (RATIO_ONE as int), fee);
        },
        TradeAction::NONE => {},
    }
}

pub struct BasicTradeStrategy {
    /// Return that triggers a trade, in basis points (10150 for 1.015).
    pub min_return: u64,
    /// Fee and slippage multiplier, in basis points.
    pub fee_pct: u64,
    pub account: AccountSliceState,
    /// Smoothed baseline price; zero until the first tick.
    pub moving_price_mark: u64,
    /// Smoothing window, in ticks.
    pub ma_duration: u32,
}

impl BasicTradeStrategy {
    pub open spec fn wf(&self) -> bool {
        &&& self.min_return > RATIO_ONE
        &&& self.fee_pct == FEE_PCT
        &&& self.ma_duration > 0
        &&& self.account.wf()
    }

    /// The baseline a tick at `price` is compared with.
    pub open spec fn mark_for(&self, price: u64) -> int {
        if self.moving_price_mark == 0 {
            price as int
        } else {
            self.moving_price_mark as int
        }
    }

    pub open spec fn action_for(&self, price: u64) -> TradeAction {
        let m = self.mark_for(price);
        match self.account.side {
            Side::BUY => if buy_triggered(price as int, m, self.min_return as int) {
                TradeAction::BUY
            } else {
                TradeAction::NONE
            },
            Side::SELL => if sell_triggered(price as int, m, self.min_return as int) {
                TradeAction::SELL
            } else {
                TradeAction::NONE
            },
        }
    }

    pub open spec fn account_after(&self, price: u64) -> AccountSliceState {
        match self.action_for(price) {
            TradeAction::BUY => AccountSliceState {
                bal_top: bought(self.account.bal_bot as int, price as int, self.fee_pct as int) as u64,
                bal_bot: 0,
                side: Side::SELL,
            },
            TradeAction::SELL => AccountSliceState {
                bal_top: 0,
                bal_bot: sold(self.account.bal_top as int, price as int, self.fee_pct as int) as u64,
                side: Side::BUY,
            },
            TradeAction::NONE => self.account,
        }
    }

    /// The strategy after a tick at `price`.
    pub open spec fn after_tick(&self, price: u64) -> BasicTradeStrategy {
        BasicTradeStrategy {
            min_return: self.min_return,
            fee_pct: self.fee_pct,
            account: self.account_after(price),
            moving_price_mark: smooth(self.mark_for(price), price as int, self.ma_duration as int) as u64,
            ma_duration: self.ma_duration,
        }
    }

    /// A fresh strategy holding the opening bottom balance.
    pub fn new(min_return: u64, ma_duration: u32) -> (r: BasicTradeStrategy)
        requires
            min_return > RATIO_ONE,
            ma_duration > 0,
        ensures
            r.wf(),
            r.min_return == min_return,
            r.ma_duration == ma_duration,
            r.moving_price_mark == 0,
            r.account == (AccountSliceState { bal_top: 0, bal_bot: START_BALANCE, side: Side::BUY }),
    {
        BasicTradeStrategy {
            min_return,
            fee_pct: FEE_PCT,
            account: AccountSliceState::default(),
            moving_price_mark: 0,
            ma_duration,
        }
    }

    fn buy(&mut self, price: u64)
        requires
            price > 0,
            old(self).fee_pct > 0,
        ensures
            final(self).account.bal_top as int == bought(old(self).account.bal_bot as int, price as int, old(self).fee_pct as int),
            final(self).account.bal_bot == 0,
            final(self).account.side == Side::SELL,
            final(self).min_return == old(self).min_return,
            final(self).fee_pct == old(self).fee_pct,
            final(self).moving_price_mark == old(self).moving_price_mark,
            final(self).ma_duration == old(self).ma_duration,
    {
        let top_purchase = mul_div(mul_div(self.account.bal_bot, PRICE_ONE, price), RATIO_ONE, self.fee_pct);
        self.account.bal_top = top_purchase;
        self.account.bal_bot = 0;
        self.account.side = Side::SELL;
    }

    fn sell(&mut self, price: u64)
        requires
            old(self).fee_pct > 0,
        ensures
            final(self).account.bal_bot as int == sold(old(self).account.bal_top as int, price as int, old(self).fee_pct as int),
            final(self).account.bal_top == 0,
            final(self).account.side == Side::BUY,
            final(self).min_return == old(self).min_return,
            final(self).fee_pct == old(self).fee_pct,
            final(self).moving_price_mark == old(self).moving_price_mark,
            final(self).ma_duration == old(self).ma_duration,
    {
        let bot_purchase = mul_div(mul_div(self.account.bal_top, price, PRICE_ONE), RATIO_ONE, self.fee_pct);
        self.account.bal_top = 0;
        self.account.bal_bot = bot_purchase;
        self.account.side = Side::BUY;
    }
}

/// A strategy turns a stream of prices into trades on its own account.
pub trait TradeStrategy: Sized {
    spec fn strategy_wf(&self) -> bool;

    /// What a tick at `price` makes the strategy do.
    spec fn tick_action(&self, price: u64) -> TradeAction;

    /// The strategy after a tick at `price`.
    spec fn state_after(&self, price: u64) -> Self;

    /// Worth of the account at `price`, in bottom-asset units.
    spec fn worth_at(&self, price: u64) -> int;

    fn process_tick(&mut self, price: u64, pair: &PairInfo) -> (r: TradeAction)
        requires
            old(self).strategy_wf(),
        ensures
            r == old(self).tick_action(price),
            *final(self) == old(self).state_after(price),
            final(self).strategy_wf(),
    ;

    fn net_worth(&self, price: u64) -> (r: u64)
        ensures
            r as int == self.worth_at(price),
    ;
}

impl TradeStrategy for BasicTradeStrategy {
    open spec fn strategy_wf(&self) -> bool {
        self.wf()
    }

    open spec fn tick_action(&self, price: u64) -> TradeAction {
        self.action_for(price)
    }

    open spec fn state_after(&self, price: u64) -> BasicTradeStrategy {
        self.after_tick(price)
    }

    open spec fn worth_at(&self, price: u64) -> int {
        worth(self.account.bal_top as int, self.account.bal_bot as int, price as int)
    }

    /// Decides on a tick at `price` (top in bottom units), trades if the
    /// threshold is crossed, then moves the baseline toward the price.
    fn process_tick(&mut self, price: u64, _pair: &PairInfo) -> (r: TradeAction) {
        if self.moving_price_mark == 0 {
            self.moving_price_mark = price;
        }
        let mark = self.moving_price_mark;
        proof {
            lemma_mul_bound(price, self.min_return);
            lemma_mul_bound(mark, RATIO_ONE);
            lemma_mul_bound(price, RATIO_ONE);
            lemma_mul_bound(mark, self.min_return);
        }
        let mut action = TradeAction::NONE;
        match self.account.side {
            Side::BUY => {
                if price > 0 && (price as u128) * (self.min_return as u128) < (mark as u128) * (RATIO_ONE as u128) {
                    self.buy(price);
                    action = TradeAction::BUY;
                }
            },
            Side::SELL => {
                if (price as u128) * (RATIO_ONE as u128) > (mark as u128) * (self.min_return as u128) {
                    self.sell(price);
                    action = TradeAction::SELL;
                }
            },
        }
        let duration = self.ma_duration as u64;
        if price >= mark {
            self.moving_price_mark = mark + (price - mark) / duration;
        } else {
            self.moving_price_mark = mark - (mark - price) / duration;
        }
        action
    }

    /// Value of the account in bottom-asset units at `price`.
    fn net_worth(&self, price: u64) -> (r: u64) {
        let top_worth = mul_div(self.account.bal_top, price, PRICE_ONE);
        let bot_worth = self.account.bal_bot;
        if top_worth > u64::MAX - bot_worth {
            u64::MAX
        } else {
            top_worth + bot_worth
        }
    }
}

} // verus!
