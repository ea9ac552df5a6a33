use vstd::prelude::*;
use vstd::arithmetic::div_mod::{
    lemma_div_is_ordered,
    lemma_div_by_multiple,
    lemma_fundamental_div_mod,
    lemma_mod_pos_bound,
};
use vstd::arithmetic::mul::lemma_mul_inequality;
use crate::rates::{RATE_SCALE, ramp_rate, ramped_rate, lemma_ramp_monotone};
use crate::dice::PullRng;
use crate::track::MAX_PITY;

verus! {

/// The four-tier model: the top tier ramps up past its soft pity, and the rise is
/// taken from the three lower tiers in proportion to their base rates, so that
/// the four rates always sum to certainty.
#[derive(Clone, Copy, Debug, PartialEq, Eq, Structural)]
pub struct RampSchedule {
    pub top_rate: u64,
    pub second_rate: u64,
    pub third_rate: u64,
    pub filler_rate: u64,
    pub soft_pity_start: u64,
    pub increment: u64,
    /// The pull count at which the top tier is guaranteed; 0 when there is none.
    pub hard_pity: u64,
}

/// The four rates applied to one pull.
#[derive(Clone, Copy, Debug, PartialEq, Eq, Structural)]
pub struct TierRates {
    pub top: u64,
    pub second: u64,
    pub third: u64,
    pub filler: u64,
}

/// The tiers, from the top down.
#[derive(Clone, Copy, Debug, PartialEq, Eq, Structural)]
pub enum Tier {
    Top,
    Second,
    Third,
    Filler,
}

/// The record of one trial of the four-tier model.
#[derive(Clone, Copy, Debug, PartialEq, Eq, Structural)]
pub struct RampRecord {
    pub pulls: u64,
    pub top_tier: u64,
    pub second_tier: u64,
    pub third_tier: u64,
    pub filler_tier: u64,
}

/// The state of one simulated player of the four-tier model.
#[derive(Clone, Copy, Debug, PartialEq, Eq, Structural)]
pub struct RampState {
    /// Pulls since the last top-tier hit.
    pub pity: u64,
    pub record: RampRecord,
}

/// The tier a draw `u` falls in, by cumulative thresholds over the rates.
pub open spec fn tier_of(r: TierRates, u: u64) -> Tier {
    if u < r.top {
        Tier::Top
    } else if u < r.top + r.second {
        Tier::Second
    } else if u < r.top + r.second + r.third {
        Tier::Third
    } else {
        Tier::Filler
    }
}

impl RampSchedule {
    pub open spec fn wf(&self) -> bool {
        &&& self.top_rate + self.second_rate + self.third_rate + self.filler_rate == RATE_SCALE
        &&& self.increment <= RATE_SCALE
        &&& self.soft_pity_start <= MAX_PITY
        &&& self.hard_pity <= MAX_PITY
        &&& (self.hard_pity > 0 || self.increment > 0 || self.top_rate == RATE_SCALE)
    }

    /// The top-tier rate at pity count `pity` (the count that includes the current pull).
    pub open spec fn top_at(&self, pity: int) -> int {
        if self.hard_pity > 0 && pity >= self.hard_pity {
            RATE_SCALE as int
        } else {
            ramp_rate(self.top_rate as int, self.increment as int, self.soft_pity_start as int, pity)
        }
    }

    /// The lower tiers' share of the mass left by the top tier at `pity`, for the
    /// tiers whose base rates sum to `base`, rounded down.
    pub open spec fn cut(&self, base: int, pity: int) -> int {
        if self.top_rate == RATE_SCALE {
            0
        } else {
            base * (RATE_SCALE - self.top_at(pity)) / (RATE_SCALE - self.top_rate)
        }
    }

    /// The rates applied at pity count `pity`. The second and third tiers take
    /// their proportional shares (cumulative thresholds rounded down), and the
    /// filler tier takes what is left.
    pub open spec fn rates(&self, pity: int) -> TierRates {
        let second = self.cut(self.second_rate as int, pity);
        let both = self.cut(self.second_rate + self.third_rate, pity);
        TierRates {
            top: self.top_at(pity) as u64,
            second: second as u64,
            third: (both - second) as u64,
            filler: (RATE_SCALE - self.top_at(pity) - both) as u64,
        }
    }

    /// The pity count at which the ramp alone reaches certainty.
    pub open spec fn ramp_certain_at(&self) -> int {
        self.soft_pity_start + (RATE_SCALE - self.top_rate + self.increment - 1) / (
        self.increment as int)
    }

    /// The first pity count at which the top tier is certain: the most pulls a
    /// trial can take.
    pub open spec fn pull_bound(&self) -> int {
        if self.top_rate == RATE_SCALE {
            1
        } else if self.increment == 0 {
            self.hard_pity as int
        } else if self.hard_pity > 0 && self.hard_pity < self.ramp_certain_at() {
            self.hard_pity as int
        } else {
            self.ramp_certain_at()
        }
    }

    pub open spec fn after(&self, s: RampState, u: u64) -> RampState {
        let t = tier_of(self.rates(s.pity + 1), u);
        RampState {
            pity: if t == Tier::Top {
                0
            } else {
                (s.pity + 1) as u64
            },
            record: RampRecord {
                pulls: (s.record.pulls + 1) as u64,
                top_tier: if t == Tier::Top {
                    (s.record.top_tier + 1) as u64
                } else {
                    s.record.top_tier
                },
                second_tier: if t == Tier::Second {
                    (s.record.second_tier + 1) as u64
                } else {
                    s.record.second_tier
                },
                third_tier: if t == Tier::Third {
                    (s.record.third_tier + 1) as u64
                } else {
                    s.record.third_tier
                },
                filler_tier: if t == Tier::Filler {
                    (s.record.filler_tier + 1) as u64
                } else {
                    s.record.filler_tier
                },
            },
        }
    }

    /// The four rates at pity count `pity`.
    pub fn rates_at(&self, pity: u64) -> (r: TierRates)
        requires
            self.wf(),
        ensures
            r == self.rates(pity as int),
            r.top + r.second + r.third + r.filler == RATE_SCALE,
    {
        proof {
            lemma_rates_conserved(*self, pity as int);
        }
        let top: u64 = if self.hard_pity > 0 && pity >= self.hard_pity {
            RATE_SCALE
        } else {
            ramped_rate(self.top_rate, self.increment, self.soft_pity_start, pity)
        };
        if self.top_rate == RATE_SCALE {
            return TierRates { top, second: 0, third: 0, filler: RATE_SCALE - top };
        }
        let rest: u64 = RATE_SCALE - top;
        let mass: u64 = RATE_SCALE - self.top_rate;
        let lower: u64 = self.second_rate + self.third_rate;
        proof {
            lemma_mul_inequality(self.second_rate as int, RATE_SCALE as int, rest as int);
            lemma_mul_inequality(lower as int, RATE_SCALE as int, rest as int);
            lemma_mul_inequality(rest as int, RATE_SCALE as int, RATE_SCALE as int);
        }
        let second: u64 = self.second_rate * rest / mass;
        let both: u64 = lower * rest / mass;
        TierRates { top, second, third: both - second, filler: rest - both }
    }

    /// One pull of the four-tier model with draw `u`.
    pub fn step(&self, state: &mut RampState, u: u64) -> (r: Tier)
        requires
            self.wf(),
            old(state).pity < u64::MAX,
            old(state).record.pulls < u64::MAX,
            old(state).record.top_tier + old(state).record.second_tier + old(state).record.third_tier
                + old(state).record.filler_tier <= old(state).record.pulls,
        ensures
            r == tier_of(self.rates(old(state).pity + 1), u),
            *final(state) == self.after(*old(state), u),
    {
        let pity: u64 = state.pity + 1;
        let r = self.rates_at(pity);
        state.record.pulls = state.record.pulls + 1;
        if u < r.top {
            state.pity = 0;
            state.record.top_tier = state.record.top_tier + 1;
            Tier::Top
        } else if u < r.top + r.second {
            state.pity = pity;
            state.record.second_tier = state.record.second_tier + 1;
            Tier::Second
        } else if u < r.top + r.second + r.third {
            state.pity = pity;
            state.record.third_tier = state.record.third_tier + 1;
            Tier::Third
        } else {
            state.pity = pity;
            state.record.filler_tier = state.record.filler_tier + 1;
            Tier::Filler
        }
    }

    /// The state after pulls with draws `draws`, from a player who has not pulled.
    pub open spec fn run(&self, draws: Seq<u64>) -> RampState
        decreases draws.len(),
    {
        if draws.len() == 0 {
            RampState::initial()
        } else {
            self.after(self.run(draws.drop_last()), draws.last())
        }
    }

    /// The tier of pull number `i` (from 0) of a run with draws `draws`.
    pub open spec fn tier_at(&self, draws: Seq<u64>, i: int) -> Tier {
        tier_of(self.rates(self.run(draws.take(i)).pity + 1), draws[i])
    }

    /// Whether `r` is the record of a trial whose pulls drew `draws`, each below
    /// certainty: every pull but the last missed the top tier, and the last hit it.
    pub open spec fn is_trial(&self, draws: Seq<u64>, r: RampRecord) -> bool {
        let n = draws.len() as int;
        &&& n >= 1
        &&& forall|i: int| 0 <= i < n ==> #[trigger] draws[i] < RATE_SCALE
        &&& forall|i: int| 0 <= i < n - 1 ==> #[trigger] self.tier_at(draws, i) != Tier::Top
        &&& self.tier_at(draws, n - 1) == Tier::Top
        &&& r == self.run(draws).record
    }

    /// One trial of the four-tier model: pulls until the first top-tier hit,
    /// which is certain by [`RampSchedule::pull_bound`] pulls.
    pub fn trial(&self, rng: &mut PullRng) -> (r: RampRecord)
        requires
            self.wf(),
        ensures
            exists|draws: Seq<u64>| self.is_trial(draws, r),
            1 <= r.pulls <= self.pull_bound(),
            r.top_tier == 1,
            r.second_tier + r.third_tier + r.filler_tier + 1 == r.pulls,
            self.top_rate == RATE_SCALE ==> r.pulls == 1,
    {
        proof {
            lemma_pull_bound_certain(*self);
        }
        let mut state = RampState {
            pity: 0,
            record: RampRecord { pulls: 0, top_tier: 0, second_tier: 0, third_tier: 0, filler_tier: 0 },
        };
        let ghost mut drawn: Seq<u64> = Seq::empty();
        loop
            invariant
                self.wf(),
                1 <= self.pull_bound() <= MAX_PITY + RATE_SCALE,
                self.top_at(self.pull_bound()) == RATE_SCALE,
                state == self.run(drawn),
                drawn.len() == state.record.pulls,
                forall|i: int| 0 <= i < drawn.len() ==> #[trigger] drawn[i] < RATE_SCALE,
                forall|i: int| 0 <= i < drawn.len() ==> #[trigger] self.tier_at(drawn, i) != Tier::Top,
                state.pity == state.record.pulls,
                state.record.pulls < self.pull_bound(),
                state.record.top_tier == 0,
                state.record.second_tier + state.record.third_tier + state.record.filler_tier
                    == state.record.pulls,
            decreases self.pull_bound() - state.record.pulls,
        {
            let u = rng.roll();
            let ghost before = state;
            let ghost prev = drawn;
            let t = self.step(&mut state, u);
            proof {
                drawn = drawn.push(u);
                assert(drawn.drop_last() =~= prev);
                assert(drawn.take(prev.len() as int) =~= prev);
                assert forall|i: int| 0 <= i < prev.len() implies self.tier_at(drawn, i)
                    == self.tier_at(prev, i) by {
                    assert(drawn.take(i) =~= prev.take(i));
                }
                assert(self.tier_at(drawn, prev.len() as int) == t);
            }
            if let Tier::Top = t {
                assert(self.is_trial(drawn, state.record));
                return state.record;
            }
            proof {
                lemma_rates_conserved(*self, before.pity + 1);
            }
        }
    }
}

impl RampState {
    /// The state of a player who has not pulled yet.
    pub open spec fn initial() -> RampState {
        RampState {
            pity: 0,
            record: RampRecord { pulls: 0, top_tier: 0, second_tier: 0, third_tier: 0, filler_tier: 0 },
        }
    }
}

/// The four rates are never negative and always sum to certainty.
pub proof fn lemma_rates_conserved(s: RampSchedule, pity: int)
    requires
        s.wf(),
    ensures
        s.rates(pity).top + s.rates(pity).second + s.rates(pity).third + s.rates(pity).filler
            == RATE_SCALE,
        s.rates(pity).top == s.top_at(pity),
        s.top_rate <= s.top_at(pity) <= RATE_SCALE,
{
    let top = s.top_at(pity);
    assert(s.top_rate <= top <= RATE_SCALE) by {
        if !(s.hard_pity > 0 && pity >= s.hard_pity) && pity > s.soft_pity_start {
            lemma_ramp_monotone(
                s.top_rate as int,
                s.increment as int,
                s.soft_pity_start as int,
                s.soft_pity_start as int,
                pity,
            );
        }
    }
    if s.top_rate < RATE_SCALE {
        let rest = RATE_SCALE - top;
        let mass = RATE_SCALE - s.top_rate;
        let b2 = s.second_rate as int;
        let b23 = s.second_rate + s.third_rate;
        lemma_mul_inequality(0, b2, rest);
        lemma_mul_inequality(b2, b23, rest);
        lemma_mul_inequality(b23, mass, rest);
        lemma_mul_inequality(rest, mass, mass);
        lemma_div_is_ordered(0, b2 * rest, mass);
        lemma_div_is_ordered(b2 * rest, b23 * rest, mass);
        lemma_div_is_ordered(b23 * rest, mass * rest, mass);
        assert(mass * rest == rest * mass) by (nonlinear_arith);
        lemma_div_by_multiple(rest, mass);
        assert(0 <= s.cut(b2, pity) <= s.cut(b23, pity) <= rest);
    }
}

/// Every trial's pull count is at most [`RampSchedule::pull_bound`]: there the
/// top tier is certain, through hard pity or through the ramp.
pub proof fn lemma_pull_bound_certain(s: RampSchedule)
    requires
        s.wf(),
    ensures
        1 <= s.pull_bound() <= MAX_PITY + RATE_SCALE,
        s.top_at(s.pull_bound()) == RATE_SCALE,
{
    if s.top_rate == RATE_SCALE {
        lemma_rates_conserved(s, 1);
    } else if s.increment > 0 {
        let x = RATE_SCALE - s.top_rate;
        let inc = s.increment as int;
        let q = (x + inc - 1) / inc;
        lemma_fundamental_div_mod(x + inc - 1, inc);
        lemma_mod_pos_bound(x + inc - 1, inc);
        assert(inc * q >= x);
        assert(q >= 1) by (nonlinear_arith)
            requires
                inc * q >= x,
                x > 0,
                inc > 0,
        ;
        assert(q <= RATE_SCALE) by {
            lemma_div_is_ordered(x + inc - 1, RATE_SCALE * inc, inc);
            lemma_div_by_multiple(RATE_SCALE as int, inc);
            assert(x + inc - 1 <= RATE_SCALE * inc) by (nonlinear_arith)
                requires
                    x <= RATE_SCALE,
                    inc >= 1,
            ;
        }
        assert(s.ramp_certain_at() == s.soft_pity_start + q);
    }
}

/// Before [`RampSchedule::pull_bound`] the top tier is never certain: no smaller
/// bound holds of every trial.
pub proof fn lemma_pull_bound_tight(s: RampSchedule, p: int)
    requires
        s.wf(),
        1 <= p < s.pull_bound(),
    ensures
        s.top_at(p) < RATE_SCALE,
{
    let b = s.top_rate as int;
    let inc = s.increment as int;
    let soft = s.soft_pity_start as int;
    if s.increment == 0 {
        assert(inc * (p - soft) == 0);
    } else if p > soft {
        let x = RATE_SCALE - b;
        let q = (x + inc - 1) / inc;
        lemma_fundamental_div_mod(x + inc - 1, inc);
        lemma_mod_pos_bound(x + inc - 1, inc);
        assert(p - soft < q);
        assert(inc * (p - soft) < x) by (nonlinear_arith)
            requires
                inc * q <= x + inc - 1,
                p - soft <= q - 1,
                inc > 0,
        ;
    }
}

/// The four-tier model's pity counter stays below the pull bound, which never
/// exceeds the hard pity where there is one.
pub proof fn lemma_ramp_pity_bounded(s: RampSchedule, st: RampState, u: u64)
    requires
        s.wf(),
        st.pity < s.pull_bound(),
        u < RATE_SCALE,
    ensures
        s.after(st, u).pity < s.pull_bound(),
        s.hard_pity > 0 ==> s.pull_bound() <= s.hard_pity,
{
    lemma_rates_conserved(s, st.pity + 1);
    lemma_pull_bound_certain(s);
    if s.hard_pity > 0 && s.top_rate == RATE_SCALE {
        assert(s.pull_bound() == 1);
    }
}

/// Past the soft-pity start, the top-tier rate does not decrease as the pity
/// counter grows.
pub proof fn lemma_top_rate_monotone(s: RampSchedule, p: int, q: int)
    requires
        s.wf(),
        s.soft_pity_start < p <= q,
    ensures
        s.top_at(p) <= s.top_at(q),
{
    lemma_ramp_monotone(
        s.top_rate as int,
        s.increment as int,
        s.soft_pity_start as int,
        p,
        q,
    );
    lemma_rates_conserved(s, p);
}

} // verus!
