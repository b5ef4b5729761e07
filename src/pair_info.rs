//! One tick of a trading pair: the prices of its two assets.
use vstd::prelude::*;
use crate::fixed::{mul_div, mul_div_spec, PRICE_ONE};

verus! {

/// The two prices of a pair at one tick, in fixed-point units.
pub struct PairInfo {
    pub tick: usize,
    pub top_price_usd: u64,
    pub bot_price_usd: u64,
}

/// Price of the top asset expressed in the bottom asset, in fixed-point units.
pub open spec fn pair_price(top: int, bot: int) -> int {
    mul_div_spec(top, PRICE_ONE as int, bot)
}

/// Something that has a price.
pub trait HasPrice {
    /// The price can be computed.
    spec fn priceable(&self) -> bool;

    spec fn price_spec(&self) -> int;

    fn price(&self) -> (r: u64)
        requires
            self.priceable(),
        ensures
            r as int == self.price_spec(),
    ;
}

impl PairInfo {
    /// A point can be priced and its price is positive.
    pub open spec fn valid(&self) -> bool {
        self.bot_price_usd > 0 && pair_price(self.top_price_usd as int, self.bot_price_usd as int) > 0
    }
}

impl HasPrice for PairInfo {
    open spec fn priceable(&self) -> bool {
        self.bot_price_usd > 0
    }

    open spec fn price_spec(&self) -> int {
        pair_price(self.top_price_usd as int, self.bot_price_usd as int)
    }

    /// `top_price / bottom_price`.
    fn price(&self) -> (r: u64) {
        mul_div(self.top_price_usd, PRICE_ONE, self.bot_price_usd)
    }
}

} // verus!
