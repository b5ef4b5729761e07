//! Cyclic replay of a pair series, rescaled at each wrap so that the price
//! carries on from where the previous cycle ended.
use vstd::prelude::*;
use vstd::arithmetic::div_mod::{lemma_fundamental_div_mod, lemma_fundamental_div_mod_converse};
use crate::fixed::{mul_div, mul_div_spec, PRICE_ONE};
use crate::pair_info::HasPrice;
use crate::pair_series::PairSeries;

verus! {

/// Index into the series of the tick `i` of a run that starts at `start`.
pub open spec fn idx_at(len: nat, start: nat, i: nat) -> nat {
    ((start % len + i) % len) as nat
}

/// Number of completed cycles when tick `i` of a run that starts at `start` is emitted.
pub open spec fn wraps_at(len: nat, start: nat, i: nat) -> nat {
    ((start % len + i) / len) as nat
}

/// The scale correction after `k` wraps: one wrap multiplies it by `last / first`.
pub open spec fn scale_after(first: int, last: int, k: nat) -> int
    decreases k,
{
    if k == 0 {
        PRICE_ONE as int
    } else {
        mul_div_spec(scale_after(first, last, (k - 1) as nat), last, first)
    }
}

/// A price multiplied by a fixed-point scale.
pub open spec fn scaled(price: int, scale: int) -> int {
    mul_div_spec(price, scale, PRICE_ONE as int)
}

/// The price emitted at tick `i` of a run over `s` that starts at `start`.
pub open spec fn stream_price(s: &PairSeries, start: nat, i: nat) -> int {
    let len = s.len();
    scaled(
        s.pairs@[idx_at(len, start, i) as int].price_spec(),
        scale_after(
            s.pairs@[0].price_spec(),
            s.pairs@[len - 1].price_spec(),
            wraps_at(len, start, i),
        ),
    )
}

/// One emitted tick: its position in the run, the scaled price, and which
/// point of the series it replays.
pub struct StreamTick {
    pub index: u32,
    pub scaled_price: u64,
    pub pair_idx: usize,
}

/// Where a run stands between two ticks.
pub struct StreamCursor {
    pub idx: usize,
    pub scale: u64,
}

/// Moving from tick `i` to tick `i + 1` either steps forward in the series or
/// wraps to its start and completes one more cycle.
proof fn lemma_advance(len: nat, start: nat, i: nat)
    requires
        len > 0,
    ensures
        idx_at(len, start, i) + 1 < len ==> idx_at(len, start, i + 1) == idx_at(len, start, i) + 1
            && wraps_at(len, start, i + 1) == wraps_at(len, start, i),
        idx_at(len, start, i) + 1 == len ==> idx_at(len, start, i + 1) == 0
            && wraps_at(len, start, i + 1) == wraps_at(len, start, i) + 1,
        idx_at(len, start, i) < len,
{
    let p = (start % len + i) as int;
    lemma_fundamental_div_mod(p, len as int);
    let q = p / len as int;
    let r = p % len as int;
    if r + 1 < len {
        lemma_fundamental_div_mod_converse(p + 1, len as int, q, r + 1);
    } else {
        assert(p + 1 == (q + 1) * len + 0) by (nonlinear_arith)
            requires
                p == len * q + r,
                r + 1 == len,
        ;
        lemma_fundamental_div_mod_converse(p + 1, len as int, q + 1, 0);
    }
}

/// Across a wrap the price does not jump: the first tick of a new cycle is
/// priced at most one unit of rounding per whole unit of the first price (plus
/// one) below the last tick of the old cycle, and never above it, as long as
/// neither the new scale nor the price before the wrap is held at `u64::MAX`.
pub proof fn lemma_wrap_continuity(s: &PairSeries, start: nat, i: nat)
    requires
        s.wf(),
        idx_at(s.len(), start, i) == s.len() - 1,
        ({
            let f = s.pairs@[0].price_spec();
            let l = s.pairs@[s.len() - 1].price_spec();
            let sc = scale_after(f, l, wraps_at(s.len(), start, i));
            &&& sc * l / f <= u64::MAX
            &&& l * sc / (PRICE_ONE as int) <= u64::MAX
        }),
    ensures
        stream_price(s, start, i + 1) <= stream_price(s, start, i),
        stream_price(s, start, i) - stream_price(s, start, i + 1)
            <= s.pairs@[0].price_spec() / (PRICE_ONE as int) + 1,
{
    let len = s.len();
    lemma_advance(len, start, i);
    let f = s.pairs@[0].price_spec();
    let l = s.pairs@[len - 1].price_spec();
    let k = wraps_at(len, start, i);
    let sc = scale_after(f, l, k);
    assert(s.pairs@[0].valid());
    assert(s.pairs@[len - 1].valid());
    assert(0 <= sc) by {
        lemma_scale_nonneg(f, l, k);
    }
    let y = sc * l;
    assert(0 <= y) by (nonlinear_arith)
        requires
            y == sc * l,
            0 <= sc,
            0 < l,
    ;
    assert(y == l * sc) by (nonlinear_arith)
        requires
            y == sc * l,
    ;
    let s2 = y / f;
    assert(scale_after(f, l, k + 1) == s2);
    lemma_fundamental_div_mod(y, f);
    let x = f * s2;
    assert(x <= y < x + f);
    assert(0 <= s2) by {
        vstd::arithmetic::div_mod::lemma_div_pos_is_pos(y, f);
    }
    assert(0 <= x) by (nonlinear_arith)
        requires
            x == f * s2,
            0 <= s2,
            0 < f,
    ;
    let one = PRICE_ONE as int;
    lemma_fundamental_div_mod(x, one);
    lemma_fundamental_div_mod(y, one);
    lemma_fundamental_div_mod(f, one);
    assert(x / one <= y / one);
    assert(y / one <= x / one + f / one + 1);
    assert(stream_price(s, start, i) == y / one);
    assert(stream_price(s, start, i + 1) == x / one);
}

proof fn lemma_scale_nonneg(f: int, l: int, k: nat)
    requires
        f > 0,
        l > 0,
    ensures
        scale_after(f, l, k) >= 0,
    decreases k,
{
    if k > 0 {
        lemma_scale_nonneg(f, l, (k - 1) as nat);
        let sc = scale_after(f, l, (k - 1) as nat);
        assert(sc * l >= 0) by (nonlinear_arith)
            requires
                sc >= 0,
                l > 0,
        ;
        vstd::arithmetic::div_mod::lemma_div_pos_is_pos(sc * l, f);
    }
}

pub struct EndlessPairStream<'a> {
    pub series: &'a PairSeries,
}

impl<'a> EndlessPairStream<'a> {
    /// The state of a run at tick `i`.
    pub open spec fn cursor_at(&self, start: nat, i: nat, c: StreamCursor) -> bool {
        let s = self.series;
        &&& c.idx == idx_at(s.len(), start, i)
        &&& c.scale as int == scale_after(
            s.pairs@[0].price_spec(),
            s.pairs@[s.len() - 1].price_spec(),
            wraps_at(s.len(), start, i),
        )
    }

    /// The cursor for tick 0 of a run that starts at `start_idx`.
    pub fn start(&self, start_idx: u32) -> (c: StreamCursor)
        requires
            self.series.wf(),
        ensures
            self.cursor_at(start_idx as nat, 0, c),
    {
        let len = self.series.pairs.len();
        let c = StreamCursor { idx: (start_idx as usize) % len, scale: PRICE_ONE };
        proof {
            let p = (start_idx as nat % len as nat) as int;
            lemma_fundamental_div_mod_converse(p, len as int, 0, p);
        }
        c
    }

    /// Emits the tick that `cur` stands at and moves `cur` to the next one.
    pub(crate) fn next_tick(&self, cur: &mut StreamCursor, Ghost(start): Ghost<nat>, Ghost(i): Ghost<nat>) -> (r: (u64, usize))
        requires
            self.series.wf(),
            self.cursor_at(start, i, *old(cur)),
        ensures
            r.1 == idx_at(self.series.len(), start, i),
            r.0 as int == stream_price(self.series, start, i),
            self.cursor_at(start, i + 1, *final(cur)),
    {
        let ghost len = self.series.len();
        proof {
            lemma_advance(len, start, i);
        }
        let rows = &self.series.pairs;
        let size = rows.len();
        let idx = cur.idx;
        let price = rows[idx].price();
        let scaled_price = mul_div(price, cur.scale, PRICE_ONE);
        if idx + 1 == size {
            let first_price = rows[0].price();
            let last_price = rows[size - 1].price();
            cur.scale = mul_div(cur.scale, last_price, first_price);
            cur.idx = 0;
        } else {
            cur.idx = idx + 1;
        }
        (scaled_price, idx)
    }

    /// Runs `num_iters` ticks from the point `start_idx` (taken modulo the
    /// series length) and returns them in order.
    pub fn iterate(&self, num_iters: u32, start_idx: u32) -> (r: Vec<StreamTick>)
        requires
            self.series.wf(),
        ensures
            r@.len() == num_iters,
            forall|i: int| 0 <= i < num_iters ==> {
                &&& (#[trigger] r@[i]).index == i
                &&& r@[i].pair_idx == idx_at(self.series.len(), start_idx as nat, i as nat)
                &&& r@[i].scaled_price as int == stream_price(self.series, start_idx as nat, i as nat)
            },
    {
        let mut out: Vec<StreamTick> = Vec::new();
        let mut cur = self.start(start_idx);
        let mut i: u32 = 0;
        while i < num_iters
            invariant
                self.series.wf(),
                i <= num_iters,
                out@.len() == i,
                self.cursor_at(start_idx as nat, i as nat, cur),
                forall|j: int| 0 <= j < i ==> {
                    &&& (#[trigger] out@[j]).index == j
                    &&& out@[j].pair_idx == idx_at(self.series.len(), start_idx as nat, j as nat)
                    &&& out@[j].scaled_price as int == stream_price(self.series, start_idx as nat, j as nat)
                },
            decreases num_iters - i,
        {
            let (p, k) = self.next_tick(&mut cur, Ghost(start_idx as nat), Ghost(i as nat));
            out.push(StreamTick { index: i, scaled_price: p, pair_idx: k });
            i = i + 1;
        }
        out
    }
}

} // verus!
