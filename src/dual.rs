use vstd::prelude::*;
use crate::rates::RATE_SCALE;
use crate::dice::PullRng;
use crate::track::{MAX_PITY, TopTier, TrackSchedule, TrackState};

verus! {

/// The largest number of limited characters a combined focus may ask for.
pub const MAX_TARGET: u64 = 1_000_000;

/// The tier below the top one, with its own pity (a four-star).
#[derive(Clone, Copy, Debug, PartialEq, Eq, Structural)]
pub struct SecondarySchedule {
    pub rate: u64,
    pub hard_pity: u64,
}

impl SecondarySchedule {
    pub open spec fn wf(&self) -> bool {
        &&& self.rate <= RATE_SCALE
        &&& 1 <= self.hard_pity <= MAX_PITY
    }

    /// Whether a pull that missed the top tier gives this tier, from pity `pity`
    /// with draw `draw`.
    pub open spec fn hits(&self, pity: u64, draw: u64) -> bool {
        pity + 1 == self.hard_pity || draw <= self.rate
    }
}

/// The constants of the dual-pity model: a character track and a weapon track,
/// each with its own soft pity and 50/50, and a shared secondary tier.
#[derive(Clone, Copy, Debug, PartialEq, Eq, Structural)]
pub struct DualSchedule {
    pub character: TrackSchedule,
    pub weapon: TrackSchedule,
    pub secondary: SecondarySchedule,
}

/// The record of one trial of the dual-pity model.
#[derive(Clone, Copy, Debug, PartialEq, Eq, Structural)]
pub struct DualRecord {
    pub pulls: u64,
    /// Limited top-tier hits on the character track.
    pub limited: u64,
    /// Limited top-tier hits on the weapon track.
    pub weapon: u64,
    pub four_star: u64,
    pub three_star: u64,
}

/// The state of one simulated player of the dual-pity model.
#[derive(Clone, Copy, Debug, PartialEq, Eq, Structural)]
pub struct DualState {
    pub character: TrackState,
    pub weapon: TrackState,
    pub secondary_pity: u64,
    pub record: DualRecord,
}

/// The three draws one pull may consult.
#[derive(Clone, Copy, Debug, PartialEq, Eq, Structural)]
pub struct PullDraws {
    pub top: u64,
    pub featured: u64,
    pub secondary: u64,
}

/// What one pull gave.
#[derive(Clone, Copy, Debug, PartialEq, Eq, Structural)]
pub enum PullCategory {
    Limited,
    Generic,
    Secondary,
    Filler,
}

/// Which banner a trial pulls on, and when it stops.
#[derive(Clone, Copy, Debug, PartialEq, Eq, Structural)]
pub enum Focus {
    /// The character track until its first top-tier hit.
    Character,
    /// The weapon track until its first top-tier hit.
    Weapon,
    /// The character track until `target` limited hits, then the weapon track
    /// until its first top-tier hit.
    CharacterThenWeapon { target: u64 },
}

/// Whether the secondary check of a pull draws afresh or reuses the top-tier draw.
#[derive(Clone, Copy, Debug, PartialEq, Eq, Structural)]
pub enum DrawMode {
    Independent,
    Shared,
}

impl DualRecord {
    pub open spec fn counted(&self) -> int {
        self.limited + self.weapon + self.four_star + self.three_star
    }
}

impl DualState {
    /// The state of a player who has not pulled yet.
    pub open spec fn initial() -> DualState {
        DualState {
            character: TrackState { pity: 0, guaranteed: false },
            weapon: TrackState { pity: 0, guaranteed: false },
            secondary_pity: 0,
            record: DualRecord { pulls: 0, limited: 0, weapon: 0, four_star: 0, three_star: 0 },
        }
    }

    pub fn new() -> (r: DualState)
        ensures
            r == DualState::initial(),
    {
        DualState {
            character: TrackState { pity: 0, guaranteed: false },
            weapon: TrackState { pity: 0, guaranteed: false },
            secondary_pity: 0,
            record: DualRecord { pulls: 0, limited: 0, weapon: 0, four_star: 0, three_star: 0 },
        }
    }
}

impl DualSchedule {
    pub open spec fn wf(&self) -> bool {
        &&& self.character.wf()
        &&& self.weapon.wf()
        &&& self.secondary.wf()
    }

    /// A state a player can be in between pulls: every pity counter below its
    /// threshold, and no pull counted twice.
    pub open spec fn holds(&self, s: DualState) -> bool {
        &&& self.character.holds(s.character)
        &&& self.weapon.holds(s.weapon)
        &&& s.secondary_pity < self.secondary.hard_pity
        &&& s.record.counted() <= s.record.pulls
    }

    pub open spec fn top_outcome(&self, s: DualState, on_character: bool, d: PullDraws) -> TopTier {
        if on_character {
            self.character.outcome(s.character, d.top, d.featured)
        } else {
            self.weapon.outcome(s.weapon, d.top, d.featured)
        }
    }

    pub open spec fn category(&self, s: DualState, on_character: bool, d: PullDraws) -> PullCategory {
        match self.top_outcome(s, on_character, d) {
            TopTier::Limited => PullCategory::Limited,
            TopTier::Generic => PullCategory::Generic,
            TopTier::Miss => if self.secondary.hits(s.secondary_pity, d.secondary) {
                PullCategory::Secondary
            } else {
                PullCategory::Filler
            },
        }
    }

    /// The state after one pull on the character track (`on_character`) or the
    /// weapon track.
    pub open spec fn after(&self, s: DualState, on_character: bool, d: PullDraws) -> DualState {
        let c = self.category(s, on_character, d);
        DualState {
            character: if on_character {
                self.character.after(s.character, d.top, d.featured)
            } else {
                s.character
            },
            weapon: if on_character {
                s.weapon
            } else {
                self.weapon.after(s.weapon, d.top, d.featured)
            },
            secondary_pity: if c == PullCategory::Filler {
                (s.secondary_pity + 1) as u64
            } else {
                0
            },
            record: DualRecord {
                pulls: (s.record.pulls + 1) as u64,
                limited: if on_character && c == PullCategory::Limited {
                    (s.record.limited + 1) as u64
                } else {
                    s.record.limited
                },
                weapon: if !on_character && c == PullCategory::Limited {
                    (s.record.weapon + 1) as u64
                } else {
                    s.record.weapon
                },
                four_star: if c == PullCategory::Secondary {
                    (s.record.four_star + 1) as u64
                } else {
                    s.record.four_star
                },
                three_star: if c == PullCategory::Filler {
                    (s.record.three_star + 1) as u64
                } else {
                    s.record.three_star
                },
            },
        }
    }

    /// One pull of the dual-pity model on the chosen track.
    pub fn step(&self, state: &mut DualState, on_character: bool, draws: PullDraws) -> (r:
        PullCategory)
        requires
            self.wf(),
            self.holds(*old(state)),
            old(state).record.pulls < u64::MAX,
        ensures
            r == self.category(*old(state), on_character, draws),
            *final(state) == self.after(*old(state), on_character, draws),
            self.holds(*final(state)),
    {
        let top = if on_character {
            self.character.pull(&mut state.character, draws.top, draws.featured)
        } else {
            self.weapon.pull(&mut state.weapon, draws.top, draws.featured)
        };
        state.record.pulls = state.record.pulls + 1;
        match top {
            TopTier::Limited => {
                state.secondary_pity = 0;
                if on_character {
                    state.record.limited = state.record.limited + 1;
                } else {
                    state.record.weapon = state.record.weapon + 1;
                }
                PullCategory::Limited
            },
            TopTier::Generic => {
                state.secondary_pity = 0;
                PullCategory::Generic
            },
            TopTier::Miss => {
                let pity: u64 = state.secondary_pity + 1;
                if pity == self.secondary.hard_pity || draws.secondary <= self.secondary.rate {
                    state.secondary_pity = 0;
                    state.record.four_star = state.record.four_star + 1;
                    PullCategory::Secondary
                } else {
                    state.secondary_pity = pity;
                    state.record.three_star = state.record.three_star + 1;
                    PullCategory::Filler
                }
            },
        }
    }
}

impl Focus {
    /// Whether the next pull goes to the character track, with `limited` limited
    /// characters so far.
    pub open spec fn on_character(&self, limited: u64) -> bool {
        match *self {
            Focus::Character => true,
            Focus::Weapon => false,
            Focus::CharacterThenWeapon { target } => limited < target,
        }
    }

    /// The number of limited characters this focus asks for before the weapon track.
    pub open spec fn target(&self) -> u64 {
        match *self {
            Focus::CharacterThenWeapon { target } => target,
            _ => 0,
        }
    }

    pub open spec fn wf(&self) -> bool {
        self.target() <= MAX_TARGET
    }

    /// Whether a pull of category `c` on the given track ends the trial.
    pub open spec fn stops(&self, on_character: bool, c: PullCategory) -> bool {
        &&& (c == PullCategory::Limited || c == PullCategory::Generic)
        &&& match *self {
            Focus::CharacterThenWeapon { .. } => !on_character,
            _ => true,
        }
    }

    fn pulls_character(&self, limited: u64) -> (r: bool)
        ensures
            r == self.on_character(limited),
    {
        match *self {
            Focus::Character => true,
            Focus::Weapon => false,
            Focus::CharacterThenWeapon { target } => limited < target,
        }
    }

    fn ends_trial(&self, on_character: bool, c: PullCategory) -> (r: bool)
        ensures
            r == self.stops(on_character, c),
    {
        let top = match c {
            PullCategory::Limited => true,
            PullCategory::Generic => true,
            _ => false,
        };
        top && match *self {
            Focus::CharacterThenWeapon { .. } => !on_character,
            _ => true,
        }
    }
}

/// The most pulls a trial with focus `CharacterThenWeapon { target }` can take:
/// each limited character within two character hard pities (one generic hit,
/// then a guaranteed one), then one weapon hard pity.
pub open spec fn combined_bound(schedule: DualSchedule, target: u64) -> int {
    2 * target * schedule.character.hard_pity + schedule.weapon.hard_pity
}

/// The character pulls that the combined focus may still need, at most.
spec fn character_potential(schedule: DualSchedule, target: u64, s: DualState) -> int {
    let h = schedule.character.hard_pity as int;
    (target - s.record.limited) * (2 * h) - (if s.character.guaranteed {
        h
    } else {
        0
    }) - s.character.pity
}

proof fn lemma_potential_shift(k: int, l: int, h: int)
    ensures
        (k - (l + 1)) * (2 * h) == (k - l) * (2 * h) - 2 * h,
        l < k && h >= 0 ==> (k - l) * (2 * h) >= 2 * h,
{
    assert((k - (l + 1)) * (2 * h) == (k - l) * (2 * h) - 2 * h) by (nonlinear_arith);
    if l < k && h >= 0 {
        assert((k - l) * (2 * h) >= 2 * h) by (nonlinear_arith)
            requires
                l < k,
                h >= 0,
        ;
    }
}

proof fn lemma_bound_fits(schedule: DualSchedule, target: u64)
    requires
        schedule.wf(),
        target <= MAX_TARGET,
    ensures
        combined_bound(schedule, target) <= 3_000_000_000_000,
{
    let h = schedule.character.hard_pity as int;
    assert(target * h <= 1_000_000_000_000) by (nonlinear_arith)
        requires
            target <= MAX_TARGET,
            h <= MAX_PITY,
            target >= 0,
            h >= 0,
    ;
    assert(2 * target * h == 2 * (target * h)) by (nonlinear_arith);
}

fn draw_pull(rng: &mut PullRng, mode: DrawMode) -> (d: PullDraws)
    ensures
        d.top < RATE_SCALE,
        d.featured < RATE_SCALE,
        d.secondary < RATE_SCALE,
        mode == DrawMode::Shared ==> d.secondary == d.top,
{
    let top = rng.roll();
    let featured = rng.roll();
    let secondary = match mode {
        DrawMode::Independent => rng.roll(),
        DrawMode::Shared => top,
    };
    PullDraws { top, featured, secondary }
}

impl DualSchedule {
    /// The state after pulls with draws `draws`, each on the track that `focus`
    /// picks at that point, from a player who has not pulled.
    pub open spec fn run(&self, focus: Focus, draws: Seq<PullDraws>) -> DualState
        decreases draws.len(),
    {
        if draws.len() == 0 {
            DualState::initial()
        } else {
            let s = self.run(focus, draws.drop_last());
            self.after(s, focus.on_character(s.record.limited), draws.last())
        }
    }

    /// Whether pull number `i` (from 0) of a run with draws `draws` is on the
    /// character track.
    pub open spec fn on_character_at(&self, focus: Focus, draws: Seq<PullDraws>, i: int) -> bool {
        focus.on_character(self.run(focus, draws.take(i)).record.limited)
    }

    /// What pull number `i` (from 0) of a run with draws `draws` gave.
    pub open spec fn category_at(&self, focus: Focus, draws: Seq<PullDraws>, i: int) -> PullCategory {
        self.category(
            self.run(focus, draws.take(i)),
            self.on_character_at(focus, draws, i),
            draws[i],
        )
    }

    /// Whether `r` is the record of a trial with focus `focus` whose pulls drew
    /// `draws`, each below certainty (with the secondary draw the top-tier one
    /// in the shared mode): no pull but the last ended the trial, and the last did.
    pub open spec fn is_trial(&self, focus: Focus, mode: DrawMode, draws: Seq<PullDraws>, r: DualRecord) -> bool {
        let n = draws.len() as int;
        &&& n >= 1
        &&& forall|i: int|
            0 <= i < n ==> {
                &&& (#[trigger] draws[i]).top < RATE_SCALE
                &&& draws[i].featured < RATE_SCALE
                &&& draws[i].secondary < RATE_SCALE
                &&& mode == DrawMode::Shared ==> draws[i].secondary == draws[i].top
            }
        &&& forall|i: int|
            0 <= i < n - 1 ==> !focus.stops(
                self.on_character_at(focus, draws, i),
                #[trigger] self.category_at(focus, draws, i),
            )
        &&& focus.stops(self.on_character_at(focus, draws, n - 1), self.category_at(focus, draws, n - 1))
        &&& r == self.run(focus, draws).record
    }
}

/// Three-star pulls come in runs shorter than the secondary hard pity: at most
/// `hard_pity - 1` of them before each other pull, and the current run is the
/// secondary pity counter.
pub open spec fn filler_runs_bounded(schedule: DualSchedule, s: DualState) -> bool {
    s.record.three_star <= (schedule.secondary.hard_pity - 1) * (s.record.pulls
        - s.record.three_star) + s.secondary_pity
}

/// A pull keeps three-star runs shorter than the secondary hard pity.
pub proof fn lemma_filler_runs_bounded(
    schedule: DualSchedule,
    s: DualState,
    on_character: bool,
    d: PullDraws,
)
    requires
        schedule.wf(),
        schedule.holds(s),
        s.record.pulls < u64::MAX,
        filler_runs_bounded(schedule, s),
    ensures
        filler_runs_bounded(schedule, schedule.after(s, on_character, d)),
{
    let h = schedule.secondary.hard_pity - 1;
    let n = s.record.pulls - s.record.three_star;
    assert(h * (n + 1) == h * n + h) by (nonlinear_arith);
}

/// One trial of the dual-pity model: pulls as `focus` directs until it stops.
/// Hard pity makes every stop certain: a character or weapon focus ends within
/// its track's hard pity, a combined one within [`combined_bound`]. In a
/// combined trial the pulls not counted in the record are the generic
/// character hits, at most one before each limited one, and the last pull.
pub fn dual_trial(schedule: &DualSchedule, focus: Focus, mode: DrawMode, rng: &mut PullRng) -> (r:
    DualRecord)
    requires
        schedule.wf(),
        focus.wf(),
    ensures
        exists|draws: Seq<PullDraws>| schedule.is_trial(focus, mode, draws, r),
        r.pulls >= 1,
        r.counted() <= r.pulls,
        r.three_star <= (schedule.secondary.hard_pity - 1) * (r.pulls - r.three_star),
        focus == Focus::Character ==> {
            &&& r.pulls <= schedule.character.hard_pity
            &&& r.weapon == 0
            &&& r.limited <= 1
            &&& r.four_star + r.three_star + 1 == r.pulls
            &&& schedule.character.base_rate == RATE_SCALE ==> r.pulls == 1
            &&& schedule.character.guarantee_chance == RATE_SCALE ==> r.limited == 1
        },
        focus == Focus::Weapon ==> {
            &&& r.pulls <= schedule.weapon.hard_pity
            &&& r.limited == 0
            &&& r.weapon <= 1
            &&& r.four_star + r.three_star + 1 == r.pulls
            &&& schedule.weapon.base_rate == RATE_SCALE ==> r.pulls == 1
            &&& schedule.weapon.guarantee_chance == RATE_SCALE ==> r.weapon == 1
        },
        focus is CharacterThenWeapon ==> {
            &&& r.limited == focus.target()
            &&& r.weapon <= 1
            &&& r.pulls <= combined_bound(*schedule, focus.target())
            &&& r.limited + r.four_star + r.three_star + 1 <= r.pulls
            &&& r.pulls <= 2 * r.limited + r.four_star + r.three_star + 1
        },
{
    let mut state = DualState::new();
    let ghost k = focus.target() as int;
    let ghost hc = schedule.character.hard_pity as int;
    let ghost hw = schedule.weapon.hard_pity as int;
    let ghost mut drawn: Seq<PullDraws> = Seq::empty();
    let ghost mut generic: int = 0;
    proof {
        lemma_bound_fits(*schedule, focus.target());
        assert(2 * k * hc == k * (2 * hc)) by (nonlinear_arith);
    }
    loop
        invariant
            schedule.wf(),
            focus.wf(),
            k == focus.target(),
            hc == schedule.character.hard_pity,
            hw == schedule.weapon.hard_pity,
            combined_bound(*schedule, focus.target()) <= 3_000_000_000_000,
            schedule.holds(state),
            filler_runs_bounded(*schedule, state),
            state == schedule.run(focus, drawn),
            drawn.len() == state.record.pulls,
            forall|i: int|
                0 <= i < drawn.len() ==> {
                    &&& (#[trigger] drawn[i]).top < RATE_SCALE
                    &&& drawn[i].featured < RATE_SCALE
                    &&& drawn[i].secondary < RATE_SCALE
                    &&& mode == DrawMode::Shared ==> drawn[i].secondary == drawn[i].top
                },
            forall|i: int|
                0 <= i < drawn.len() ==> !focus.stops(
                    schedule.on_character_at(focus, drawn, i),
                    #[trigger] schedule.category_at(focus, drawn, i),
                ),
            state.record.weapon == 0,
            focus == Focus::Character ==> {
                &&& state.character.pity == state.record.pulls
                &&& state.record.limited == 0
                &&& state.record.four_star + state.record.three_star == state.record.pulls
                &&& schedule.character.base_rate == RATE_SCALE ==> state.record.pulls == 0
            },
            focus == Focus::Weapon ==> {
                &&& state.weapon.pity == state.record.pulls
                &&& state.record.limited == 0
                &&& state.record.four_star + state.record.three_star == state.record.pulls
                &&& schedule.weapon.base_rate == RATE_SCALE ==> state.record.pulls == 0
            },
            focus is CharacterThenWeapon ==> {
                &&& state.record.limited <= k
                &&& state.record.limited < k ==> {
                    &&& state.weapon.pity == 0
                    &&& state.record.pulls + character_potential(*schedule, focus.target(), state)
                        <= 2 * k * hc
                }
                &&& state.record.limited == k ==> state.record.pulls <= 2 * k * hc
                    + state.weapon.pity
                &&& state.record.limited == k ==> !state.character.guaranteed
                &&& 0 <= generic <= state.record.limited + (if state.character.guaranteed {
                    1int
                } else {
                    0int
                })
                &&& state.record.pulls == state.record.limited + generic + state.record.four_star
                    + state.record.three_star
            },
        decreases
            k - state.record.limited,
            (if state.character.guaranteed {
                0int
            } else {
                1int
            }),
            hc - state.character.pity,
            hw - state.weapon.pity,
    {
        let on_character = focus.pulls_character(state.record.limited);
        let draws = draw_pull(rng, mode);
        let ghost before = state;
        let ghost prev = drawn;
        proof {
            lemma_potential_shift(k, before.record.limited as int, hc);
            assert(2 * k * hc == k * (2 * hc)) by (nonlinear_arith);
            if focus is CharacterThenWeapon && before.record.limited < k {
                assert(character_potential(*schedule, focus.target(), before) >= 1);
            }
            lemma_filler_runs_bounded(*schedule, before, on_character, draws);
        }
        let c = schedule.step(&mut state, on_character, draws);
        proof {
            drawn = drawn.push(draws);
            assert(drawn.drop_last() =~= prev);
            assert(drawn.take(prev.len() as int) =~= prev);
            assert forall|i: int| 0 <= i < prev.len() implies schedule.category_at(focus, drawn, i)
                == schedule.category_at(focus, prev, i) && schedule.on_character_at(focus, drawn, i)
                == schedule.on_character_at(focus, prev, i) by {
                assert(drawn.take(i) =~= prev.take(i));
            }
            assert(schedule.on_character_at(focus, drawn, prev.len() as int) == on_character);
            assert(schedule.category_at(focus, drawn, prev.len() as int) == c);
            if on_character && c == PullCategory::Generic {
                generic = generic + 1;
            }
        }
        if focus.ends_trial(on_character, c) {
            assert(schedule.is_trial(focus, mode, drawn, state.record));
            return state.record;
        }
        proof {
            if focus is CharacterThenWeapon && on_character {
                lemma_potential_shift(k, before.record.limited as int, hc);
            }
        }
    }
}

/// Every pity counter of the dual-pity model stays in `[0, hard_pity)` across a pull.
pub proof fn lemma_dual_pity_bounded(
    schedule: DualSchedule,
    s: DualState,
    on_character: bool,
    d: PullDraws,
)
    requires
        schedule.wf(),
        schedule.holds(s),
        s.record.pulls < u64::MAX,
    ensures
        schedule.holds(schedule.after(s, on_character, d)),
{
}

} // verus!
