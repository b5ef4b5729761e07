//! Simulation passes from random starting points, and their summary.
use vstd::prelude::*;
use rand::{RngCore, SeedableRng};
use crate::agent::{fresh_agent, feed, Agent, AgentParams};
use crate::pair_series::PairSeries;
use crate::price_stream::{stream_price, EndlessPairStream};

verus! {

#[verifier::external_type_specification]
#[verifier::external_body]
pub struct ExStdRng(rand::rngs::StdRng);

/// Relies on rand's `SeedableRng::from_entropy` for `StdRng`: a generator
/// seeded from the operating system (it panics only if no entropy can be had).
#[verifier::external_body]
fn seeded_rng() -> (r: rand::rngs::StdRng) {
    rand::rngs::StdRng::from_entropy()
}

/// Relies on rand's `RngCore::next_u32` for `StdRng`: the next random word.
#[verifier::external_body]
fn draw_u32(rng: &mut rand::rngs::StdRng) -> (r: u32) {
    rng.next_u32()
}

/// What one pass ends with.
#[derive(Debug, Clone, Copy, PartialEq, Eq, Structural)]
pub struct PassOutcome {
    pub net_worth: u64,
    pub trades: u32,
}

/// The first `n` prices of a run over `s` that starts at `start`.
pub open spec fn stream_prices(s: &PairSeries, start: nat, n: nat) -> Seq<u64> {
    Seq::new(n, |i: int| stream_price(s, start, i as nat) as u64)
}

/// The agent at the end of a pass of `n` ticks from `start`.
pub open spec fn pass_agent(s: &PairSeries, p: AgentParams, n: nat, start: nat) -> Agent {
    feed(fresh_agent(p), stream_prices(s, start, n))
}

pub open spec fn pass_outcome(s: &PairSeries, p: AgentParams, n: nat, start: nat) -> PassOutcome {
    let a = pass_agent(s, p, n, start);
    PassOutcome { net_worth: a.net_worth_spec() as u64, trades: a.trades }
}

/// `o` is what a pass of `n` ticks ends with from some starting point.
pub open spec fn from_some_start(s: &PairSeries, p: AgentParams, n: nat, o: PassOutcome) -> bool {
    exists|start: u32| #[trigger] pass_outcome(s, p, n, start as nat) == o
}

/// Runs one pass: a fresh agent fed `n_steps` ticks of the endless stream
/// from the point `start_idx`.
pub fn run_pass(series: &PairSeries, agent_params: &AgentParams, n_steps: u32, start_idx: u32) -> (r: PassOutcome)
    requires
        series.wf(),
        agent_params.wf(),
    ensures
        r == pass_outcome(series, *agent_params, n_steps as nat, start_idx as nat),
{
    let stream = EndlessPairStream { series };
    let mut agent = Agent::new(agent_params);
    let mut cur = stream.start(start_idx);
    let ghost start = start_idx as nat;
    let mut i: u32 = 0;
    while i < n_steps
        invariant
            series.wf(),
            stream.series == series,
            i <= n_steps,
            stream.cursor_at(start, i as nat, cur),
            agent.wf(),
            agent.trades <= i,
            agent == feed(fresh_agent(*agent_params), stream_prices(series, start, i as nat)),
        decreases n_steps - i,
    {
        let (price, k) = stream.next_tick(&mut cur, Ghost(start), Ghost(i as nat));
        proof {
            let prev = stream_prices(series, start, i as nat);
            let next = stream_prices(series, start, (i + 1) as nat);
            assert(next.drop_last() =~= prev);
            assert(next.last() == price);
        }
        agent.handle(i, price, &series.pairs[k]);
        i = i + 1;
    }
    PassOutcome { net_worth: agent.net_worth(), trades: agent.trades() }
}

/// Runs `samples` passes of `n_steps` ticks, each from a starting point drawn
/// from a freshly seeded random generator.
pub fn sample_passes(series: &PairSeries, agent_params: &AgentParams, samples: u32, n_steps: u32) -> (r: Vec<PassOutcome>)
    requires
        series.wf(),
        agent_params.wf(),
    ensures
        r@.len() == samples,
        forall|i: int| 0 <= i < samples ==> from_some_start(series, *agent_params, n_steps as nat, #[trigger] r@[i]),
{
    let mut rng = seeded_rng();
    let mut out: Vec<PassOutcome> = Vec::new();
    let mut j: u32 = 0;
    while j < samples
        invariant
            series.wf(),
            agent_params.wf(),
            j <= samples,
            out@.len() == j,
            forall|i: int| 0 <= i < j ==> from_some_start(series, *agent_params, n_steps as nat, #[trigger] out@[i]),
        decreases samples - j,
    {
        let start = draw_u32(&mut rng);
        let o = run_pass(series, agent_params, n_steps, start);
        out.push(o);
        assert(pass_outcome(series, *agent_params, n_steps as nat, start as nat) == out@[j as int]);
        j = j + 1;
    }
    out
}

} // verus!
