//! Reduction of a thread's passes into one row of statistics.
use vstd::prelude::*;
use vstd::arithmetic::div_mod::{lemma_div_is_ordered, lemma_div_multiples_vanish};
use crate::agent::AgentParams;
use crate::sampling::PassOutcome;

verus! {

pub open spec fn sum_worth(s: Seq<PassOutcome>) -> int
    decreases s.len(),
{
    if s.len() == 0 {
        0
    } else {
        sum_worth(s.drop_last()) + s.last().net_worth
    }
}

pub open spec fn sum_trades(s: Seq<PassOutcome>) -> int
    decreases s.len(),
{
    if s.len() == 0 {
        0
    } else {
        sum_trades(s.drop_last()) + s.last().trades
    }
}

/// Smallest net worth of a non-empty sequence.
pub open spec fn min_worth(s: Seq<PassOutcome>) -> int
    decreases s.len(),
{
    if s.len() <= 1 {
        s[0].net_worth as int
    } else {
        let m = min_worth(s.drop_last());
        if s.last().net_worth < m { s.last().net_worth as int } else { m }
    }
}

/// Largest net worth of a non-empty sequence.
pub open spec fn max_worth(s: Seq<PassOutcome>) -> int
    decreases s.len(),
{
    if s.len() <= 1 {
        s[0].net_worth as int
    } else {
        let m = max_worth(s.drop_last());
        if s.last().net_worth > m { s.last().net_worth as int } else { m }
    }
}

/// One row per thread: the parameters, the number of passes, the total of
/// their trade counts, and the smallest, largest and mean (rounded down) net
/// worth.
#[derive(Debug, Clone, Copy, PartialEq, Eq, Structural)]
pub struct SampleReturnStats {
    pub agent_params: AgentParams,
    pub samples: u32,
    pub total_trades: u64,
    pub min: u64,
    pub max: u64,
    pub mean: u64,
}

proof fn lemma_sum_bounds(s: Seq<PassOutcome>)
    requires
        s.len() > 0,
    ensures
        min_worth(s) * s.len() <= sum_worth(s) <= max_worth(s) * s.len(),
        0 <= sum_worth(s) <= u64::MAX * s.len(),
        0 <= sum_trades(s) <= u32::MAX * s.len(),
        0 <= min_worth(s) <= max_worth(s) <= u64::MAX,
    decreases s.len(),
{
    if s.len() > 1 {
        let t = s.drop_last();
        lemma_sum_bounds(t);
        let n = t.len() as int;
        let a = min_worth(t);
        let b = max_worth(t);
        let x = s.last().net_worth as int;
        assert(min_worth(s) * (n + 1) <= sum_worth(t) + x) by (nonlinear_arith)
            requires
                a * n <= sum_worth(t),
                min_worth(s) <= a,
                min_worth(s) <= x,
                n >= 0,
        ;
        assert(sum_worth(t) + x <= max_worth(s) * (n + 1)) by (nonlinear_arith)
            requires
                sum_worth(t) <= b * n,
                max_worth(s) >= b,
                max_worth(s) >= x,
                n >= 0,
        ;
        assert(sum_worth(t) + x <= u64::MAX * (n + 1)) by (nonlinear_arith)
            requires
                sum_worth(t) <= u64::MAX * n,
                x <= u64::MAX,
        ;
        assert(sum_trades(t) + s.last().trades <= u32::MAX * (n + 1)) by (nonlinear_arith)
            requires
                sum_trades(t) <= u32::MAX * n,
                s.last().trades <= u32::MAX,
        ;
        assert(s.len() == n + 1);
        assert(u32::MAX * s.len() == u32::MAX * (n + 1));
        assert(min_worth(s) * s.len() == min_worth(s) * (n + 1));
        assert(max_worth(s) * s.len() == max_worth(s) * (n + 1));
        assert(u64::MAX * s.len() == u64::MAX * (n + 1));
    } else {
        assert(s.drop_last().len() == 0);
        assert(s.last() == s[0]);
        assert(sum_worth(s.drop_last()) == 0);
        assert(sum_trades(s.drop_last()) == 0);
    }
}

/// The mean net worth of a thread's passes lies between the smallest and the
/// largest of them.
pub proof fn lemma_mean_between_min_and_max(s: Seq<PassOutcome>)
    requires
        s.len() > 0,
    ensures
        min_worth(s) <= sum_worth(s) / (s.len() as int) <= max_worth(s),
{
    lemma_sum_bounds(s);
    let n = s.len() as int;
    lemma_div_is_ordered(min_worth(s) * n, sum_worth(s), n);
    lemma_div_is_ordered(sum_worth(s), max_worth(s) * n, n);
    lemma_div_multiples_vanish(min_worth(s), n);
    lemma_div_multiples_vanish(max_worth(s), n);
    assert(min_worth(s) * n == n * min_worth(s)) by (nonlinear_arith);
    assert(max_worth(s) * n == n * max_worth(s)) by (nonlinear_arith);
}

/// Reduces a thread's passes into one row; `None` when there are no passes.
pub fn summarize(agent_params: AgentParams, outcomes: &Vec<PassOutcome>) -> (r: Option<SampleReturnStats>)
    requires
        outcomes@.len() <= u32::MAX,
    ensures
        outcomes@.len() == 0 <==> r is None,
        r is Some ==> {
            let st = r->Some_0;
            &&& st.agent_params == agent_params
            &&& st.samples == outcomes@.len()
            &&& st.total_trades == sum_trades(outcomes@)
            &&& st.min == min_worth(outcomes@)
            &&& st.max == max_worth(outcomes@)
            &&& st.mean == sum_worth(outcomes@) / (outcomes@.len() as int)
        },
{
    let len = outcomes.len();
    if len == 0 {
        return None;
    }
    let mut total: u128 = 0;
    let mut trades: u64 = 0;
    let mut min: u64 = outcomes[0].net_worth;
    let mut max: u64 = outcomes[0].net_worth;
    let mut i: usize = 0;
    while i < len
        invariant
            len == outcomes@.len(),
            0 < len <= u32::MAX,
            i <= len,
            total == sum_worth(outcomes@.take(i as int)),
            trades == sum_trades(outcomes@.take(i as int)),
            i > 0 ==> min == min_worth(outcomes@.take(i as int)),
            i > 0 ==> max == max_worth(outcomes@.take(i as int)),
            i == 0 ==> min == outcomes@[0].net_worth && max == outcomes@[0].net_worth,
        decreases len - i,
    {
        let o = outcomes[i];
        proof {
            let t = outcomes@.take(i as int + 1);
            assert(t.drop_last() =~= outcomes@.take(i as int));
            assert(t.last() == o);
            lemma_sum_bounds(t);
            assert(u64::MAX * t.len() <= u64::MAX * u32::MAX) by (nonlinear_arith)
                requires t.len() <= u32::MAX;
            assert(u32::MAX * t.len() <= u32::MAX * u32::MAX) by (nonlinear_arith)
                requires t.len() <= u32::MAX;
        }
        total = total + o.net_worth as u128;
        trades = trades + o.trades as u64;
        if i > 0 {
            if o.net_worth < min {
                min = o.net_worth;
            }
            if o.net_worth > max {
                max = o.net_worth;
            }
        }
        i = i + 1;
    }
    assert(outcomes@.take(len as int) =~= outcomes@);
    proof {
        lemma_mean_between_min_and_max(outcomes@);
    }
    let mean = (total / (len as u128)) as u64;
    Some(SampleReturnStats {
        agent_params,
        samples: len as u32,
        total_trades: trades,
        min,
        max,
        mean,
    })
}

} // verus!
