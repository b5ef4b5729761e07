//! An immutable, index-aligned series of price pairs.
use vstd::prelude::*;
use crate::fixed::{mul_div, PRICE_ONE};
use crate::pair_info::{pair_price, PairInfo};

verus! {

/// Why two price columns could not be paired.
#[derive(Debug, PartialEq, Eq, Structural)]
pub enum SeriesError {
    /// The two columns differ in length.
    LengthMismatch,
    /// The columns hold no observation.
    Empty,
    /// Some point has a zero bottom price, or a price below one fixed-point unit.
    ZeroPrice,
}

/// The series of pairs; never changed after construction.
pub struct PairSeries {
    pub pairs: Vec<PairInfo>,
}

pub open spec fn point_ok(top: u64, bot: u64) -> bool {
    bot > 0 && pair_price(top as int, bot as int) > 0
}

impl PairSeries {
    /// Non-empty, and every point can be priced with a positive price.
    pub open spec fn wf(&self) -> bool {
        &&& self.pairs@.len() > 0
        &&& forall|i: int| 0 <= i < self.pairs@.len() ==> (#[trigger] self.pairs@[i]).valid()
    }

    pub open spec fn len(&self) -> nat {
        self.pairs@.len()
    }

    /// Pairs the two columns index by index.
    pub fn new(top: &Vec<u64>, bot: &Vec<u64>) -> (r: Result<PairSeries, SeriesError>)
        ensures
            top@.len() != bot@.len() <==> r == Err::<PairSeries, SeriesError>(SeriesError::LengthMismatch),
            (top@.len() == bot@.len() && top@.len() == 0) <==> r == Err::<PairSeries, SeriesError>(SeriesError::Empty),
            (top@.len() == bot@.len() && top@.len() > 0
                && exists|i: int| 0 <= i < top@.len() && !point_ok(#[trigger] top@[i], bot@[i]))
                <==> r == Err::<PairSeries, SeriesError>(SeriesError::ZeroPrice),
            r is Ok ==> {
                let s = r->Ok_0;
                &&& s.wf()
                &&& s.pairs@.len() == top@.len()
                &&& forall|i: int| 0 <= i < top@.len() ==> {
                    &&& (#[trigger] s.pairs@[i]).tick == i
                    &&& s.pairs@[i].top_price_usd == top@[i]
                    &&& s.pairs@[i].bot_price_usd == bot@[i]
                }
            },
    {
        if top.len() != bot.len() {
            return Err(SeriesError::LengthMismatch);
        }
        if top.len() == 0 {
            return Err(SeriesError::Empty);
        }
        let len = top.len();
        let mut results: Vec<PairInfo> = Vec::with_capacity(len);
        let mut i: usize = 0;
        while i < len
            invariant
                len == top@.len(),
                len == bot@.len(),
                0 <= i <= len,
                results@.len() == i,
                forall|j: int| 0 <= j < i ==> point_ok(#[trigger] top@[j], bot@[j]),
                forall|j: int| 0 <= j < i ==> {
                    &&& (#[trigger] results@[j]).tick == j
                    &&& results@[j].top_price_usd == top@[j]
                    &&& results@[j].bot_price_usd == bot@[j]
                },
            decreases len - i,
        {
            let t = top[i];
            let b = bot[i];
            if b == 0 || mul_div(t, PRICE_ONE, b) == 0 {
                return Err(SeriesError::ZeroPrice);
            }
            results.push(PairInfo { tick: i, top_price_usd: t, bot_price_usd: b });
            i = i + 1;
        }
        let s = PairSeries { pairs: results };
        assert forall|j: int| 0 <= j < s.pairs@.len() implies (#[trigger] s.pairs@[j]).valid() by {
            assert(point_ok(top@[j], bot@[j]));
        }
        Ok(s)
    }
}

} // verus!
