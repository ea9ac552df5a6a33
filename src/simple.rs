use vstd::prelude::*;
use crate::rates::RATE_SCALE;
use crate::dice::PullRng;
use crate::track::{MAX_PITY, TopTier, TrackSchedule, TrackState};

verus! {

/// The single-pity model: one top tier with a hard pity and a 50/50, no ramp.
#[derive(Clone, Copy, Debug, PartialEq, Eq, Structural)]
pub struct SimpleSchedule {
    pub base_rate: u64,
    pub hard_pity: u64,
    pub guarantee_chance: u64,
}

/// The record of one trial of the single-pity model: pulls taken, whether the
/// hit was limited, and which banner (weapon or character) gave it.
#[derive(Clone, Copy, Debug, PartialEq, Eq, Structural)]
pub struct SimpleOutcome {
    pub pulls: u64,
    pub limited: u64,
    pub weapon: u64,
    pub character: u64,
}

impl SimpleSchedule {
    pub open spec fn wf(&self) -> bool {
        &&& self.base_rate <= RATE_SCALE
        &&& self.guarantee_chance <= RATE_SCALE
        &&& 1 <= self.hard_pity <= MAX_PITY
    }

    /// The same model as a track whose ramp never starts.
    pub open spec fn as_track(&self) -> TrackSchedule {
        TrackSchedule {
            base_rate: self.base_rate,
            hard_pity: self.hard_pity,
            soft_pity_start: 0,
            soft_pity_increment: 0,
            guarantee_chance: self.guarantee_chance,
        }
    }

    pub fn track(&self) -> (r: TrackSchedule)
        ensures
            r == self.as_track(),
    {
        TrackSchedule {
            base_rate: self.base_rate,
            hard_pity: self.hard_pity,
            soft_pity_start: 0,
            soft_pity_increment: 0,
            guarantee_chance: self.guarantee_chance,
        }
    }
}

/// The state of a single-pity trial before its pull number `i` (from 0): every
/// earlier pull missed, so the pity counter is `i`.
pub open spec fn fresh_at(i: int) -> TrackState {
    TrackState { pity: i as u64, guaranteed: false }
}

/// Whether `r` is the record of a single-pity trial whose pulls drew `draws`,
/// each a `(top, featured)` pair below certainty: every pull but the last
/// missed the top tier, the last hit it, and the 50/50 of that hit decides
/// `limited`.
pub open spec fn is_simple_trial(
    schedule: SimpleSchedule,
    on_character: bool,
    draws: Seq<(u64, u64)>,
    r: SimpleOutcome,
) -> bool {
    let t = schedule.as_track();
    let n = draws.len() as int;
    &&& n >= 1
    &&& forall|i: int|
        0 <= i < n ==> (#[trigger] draws[i]).0 < RATE_SCALE && draws[i].1 < RATE_SCALE
    &&& forall|i: int| 0 <= i < n - 1 ==> !t.hits(fresh_at(i), (#[trigger] draws[i]).0)
    &&& t.hits(fresh_at(n - 1), draws[n - 1].0)
    &&& r == SimpleOutcome {
        pulls: n as u64,
        limited: if t.resolves_limited(fresh_at(n - 1), draws[n - 1].1) {
            1
        } else {
            0
        },
        weapon: if on_character {
            0
        } else {
            1
        },
        character: if on_character {
            1
        } else {
            0
        },
    }
}

/// One trial of the single-pity model: pulls on one banner until the first
/// top-tier hit, which hard pity makes certain by `hard_pity` pulls.
pub fn simple_trial(schedule: &SimpleSchedule, on_character: bool, rng: &mut PullRng) -> (r:
    SimpleOutcome)
    requires
        schedule.wf(),
    ensures
        exists|draws: Seq<(u64, u64)>| is_simple_trial(*schedule, on_character, draws, r),
        1 <= r.pulls <= schedule.hard_pity,
        r.limited <= 1,
        r.character == (if on_character { 1u64 } else { 0u64 }),
        r.weapon == (if on_character { 0u64 } else { 1u64 }),
        schedule.base_rate == RATE_SCALE ==> r.pulls == 1,
        schedule.guarantee_chance == RATE_SCALE ==> r.limited == 1,
{
    let track = schedule.track();
    let mut state = TrackState { pity: 0, guaranteed: false };
    let mut pulls: u64 = 0;
    let ghost mut drawn: Seq<(u64, u64)> = Seq::empty();
    loop
        invariant
            track == schedule.as_track(),
            schedule.wf(),
            state == fresh_at(pulls as int),
            pulls < schedule.hard_pity,
            schedule.base_rate == RATE_SCALE ==> pulls == 0,
            drawn.len() == pulls,
            forall|i: int|
                0 <= i < pulls ==> (#[trigger] drawn[i]).0 < RATE_SCALE && drawn[i].1 < RATE_SCALE,
            forall|i: int| 0 <= i < pulls ==> !track.hits(fresh_at(i), (#[trigger] drawn[i]).0),
        decreases schedule.hard_pity - pulls,
    {
        let top = rng.roll();
        let featured = rng.roll();
        let ghost before = drawn;
        proof {
            drawn = drawn.push((top, featured));
            assert(forall|i: int| 0 <= i < before.len() ==> drawn[i] == before[i]);
        }
        pulls = pulls + 1;
        let hit = track.pull(&mut state, top, featured);
        let limited: u64 = match hit {
            TopTier::Miss => {
                continue ;
            },
            TopTier::Limited => 1,
            TopTier::Generic => 0,
        };
        let r = SimpleOutcome {
            pulls,
            limited,
            weapon: if on_character { 0 } else { 1 },
            character: if on_character { 1 } else { 0 },
        };
        assert(is_simple_trial(*schedule, on_character, drawn, r));
        return r;
    }
}

} // verus!
