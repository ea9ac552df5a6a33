use vstd::prelude::*;
use crate::rates::{RATE_SCALE, ramp_rate, ramped_rate, lemma_ramp_monotone};

verus! {

/// The largest hard-pity threshold a schedule may hold, so that pull counts of
/// whole trials stay far inside `u64`.
pub const MAX_PITY: u64 = 1_000_000;

/// The constants of one top-tier pity track (a character or a weapon banner).
#[derive(Clone, Copy, Debug, PartialEq, Eq, Structural)]
pub struct TrackSchedule {
    /// Top-tier rate of an unmodified pull.
    pub base_rate: u64,
    /// The pull count at which the top tier is guaranteed.
    pub hard_pity: u64,
    /// The pity count after which the soft-pity ramp starts.
    pub soft_pity_start: u64,
    /// Rate added for each pull past `soft_pity_start`.
    pub soft_pity_increment: u64,
    /// Chance that a top-tier hit is the limited item (the 50/50).
    pub guarantee_chance: u64,
}

/// The mutable state of one top-tier track.
#[derive(Clone, Copy, Debug, PartialEq, Eq, Structural)]
pub struct TrackState {
    /// Pulls on this track since its last top-tier hit.
    pub pity: u64,
    /// Set when the last top-tier hit was generic: the next one is limited.
    pub guaranteed: bool,
}

/// What one pull on a track gave at the top tier.
#[derive(Clone, Copy, Debug, PartialEq, Eq, Structural)]
pub enum TopTier {
    Miss,
    Limited,
    Generic,
}

impl TrackSchedule {
    pub open spec fn wf(&self) -> bool {
        &&& self.base_rate <= RATE_SCALE
        &&& self.soft_pity_increment <= RATE_SCALE
        &&& self.guarantee_chance <= RATE_SCALE
        &&& 1 <= self.hard_pity <= MAX_PITY
    }

    /// The ramped rate of a pull made with `pity` pulls since the last top-tier
    /// hit (the count before the pull).
    pub open spec fn ramp_at(&self, pity: int) -> int {
        ramp_rate(
            self.base_rate as int,
            self.soft_pity_increment as int,
            self.soft_pity_start as int,
            pity,
        )
    }

    /// The effective top-tier probability of a pull made at pity count `pity`:
    /// certainty on the hard-pity pull.
    pub open spec fn effective_rate(&self, pity: int) -> int {
        if pity + 1 == self.hard_pity {
            RATE_SCALE as int
        } else {
            self.ramp_at(pity)
        }
    }

    /// Whether the pull after `s` hits the top tier with draw `top`.
    pub open spec fn hits(&self, s: TrackState, top: u64) -> bool {
        s.pity + 1 == self.hard_pity || top <= self.ramp_at(s.pity as int)
    }

    /// Whether a top-tier hit from `s` resolves to the limited item with draw `featured`.
    pub open spec fn resolves_limited(&self, s: TrackState, featured: u64) -> bool {
        s.guaranteed || featured <= self.guarantee_chance
    }

    pub open spec fn outcome(&self, s: TrackState, top: u64, featured: u64) -> TopTier {
        if !self.hits(s, top) {
            TopTier::Miss
        } else if self.resolves_limited(s, featured) {
            TopTier::Limited
        } else {
            TopTier::Generic
        }
    }

    pub open spec fn after(&self, s: TrackState, top: u64, featured: u64) -> TrackState {
        if self.hits(s, top) {
            TrackState { pity: 0, guaranteed: !self.resolves_limited(s, featured) }
        } else {
            TrackState { pity: (s.pity + 1) as u64, guaranteed: s.guaranteed }
        }
    }

    /// A state that this track can be in between pulls.
    pub open spec fn holds(&self, s: TrackState) -> bool {
        s.pity < self.hard_pity
    }

    /// One pull on this track: draw `top` decides the top tier, draw `featured`
    /// the 50/50 unless the guarantee is held.
    pub fn pull(&self, state: &mut TrackState, top: u64, featured: u64) -> (r: TopTier)
        requires
            self.wf(),
            self.holds(*old(state)),
        ensures
            r == self.outcome(*old(state), top, featured),
            *final(state) == self.after(*old(state), top, featured),
            self.holds(*final(state)),
    {
        let pity: u64 = state.pity + 1;
        let hit = pity == self.hard_pity || top <= ramped_rate(
            self.base_rate,
            self.soft_pity_increment,
            self.soft_pity_start,
            state.pity,
        );
        if !hit {
            state.pity = pity;
            return TopTier::Miss;
        }
        let limited = state.guaranteed || featured <= self.guarantee_chance;
        state.pity = 0;
        state.guaranteed = !limited;
        if limited {
            TopTier::Limited
        } else {
            TopTier::Generic
        }
    }
}

/// Every pity counter stays in `[0, hard_pity)`: a pull never leaves it at or past
/// the threshold.
pub proof fn lemma_track_pity_bounded(t: TrackSchedule, s: TrackState, top: u64, featured: u64)
    requires
        t.wf(),
        t.holds(s),
    ensures
        t.holds(t.after(s, top, featured)),
        t.after(s, top, featured).pity <= s.pity + 1,
{
}

/// Past the soft-pity start, the effective top-tier probability does not decrease
/// as the pity counter grows, up to the hard-pity cap.
pub proof fn lemma_effective_rate_monotone(t: TrackSchedule, p: int, q: int)
    requires
        t.wf(),
        t.soft_pity_start < p <= q < t.hard_pity,
    ensures
        t.effective_rate(p) <= t.effective_rate(q),
{
    lemma_ramp_monotone(
        t.base_rate as int,
        t.soft_pity_increment as int,
        t.soft_pity_start as int,
        p,
        q,
    );
}

/// The track state after a run of pulls, each given by its `(top, featured)` draws.
pub open spec fn run_track(t: TrackSchedule, s: TrackState, draws: Seq<(u64, u64)>) -> TrackState
    decreases draws.len(),
{
    if draws.len() == 0 {
        s
    } else {
        run_track(t, t.after(s, draws[0].0, draws[0].1), draws.drop_first())
    }
}

/// Whether every pull of a run misses the top tier.
pub open spec fn all_miss(t: TrackSchedule, s: TrackState, draws: Seq<(u64, u64)>) -> bool
    decreases draws.len(),
{
    draws.len() == 0 || (t.outcome(s, draws[0].0, draws[0].1) == TopTier::Miss && all_miss(
        t,
        t.after(s, draws[0].0, draws[0].1),
        draws.drop_first(),
    ))
}

/// Misses keep the guarantee.
proof fn lemma_misses_keep_guarantee(t: TrackSchedule, s: TrackState, draws: Seq<(u64, u64)>)
    requires
        s.guaranteed,
        all_miss(t, s, draws),
    ensures
        run_track(t, s, draws).guaranteed,
    decreases draws.len(),
{
    if draws.len() > 0 {
        lemma_misses_keep_guarantee(t, t.after(s, draws[0].0, draws[0].1), draws.drop_first());
    }
}

/// The 50/50 never fails twice in a row on one track: after a generic top-tier
/// hit and any run of misses, the next top-tier hit is limited.
pub proof fn lemma_guarantee_alternation(
    t: TrackSchedule,
    s: TrackState,
    first: (u64, u64),
    misses: Seq<(u64, u64)>,
    next: (u64, u64),
)
    requires
        t.outcome(s, first.0, first.1) == TopTier::Generic,
        all_miss(t, t.after(s, first.0, first.1), misses),
    ensures
        t.outcome(run_track(t, t.after(s, first.0, first.1), misses), next.0, next.1)
            != TopTier::Generic,
{
    lemma_misses_keep_guarantee(t, t.after(s, first.0, first.1), misses);
}

} // verus!
