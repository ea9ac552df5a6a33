use vstd::prelude::*;
use crate::dice::PullRng;
use crate::simple::{SimpleSchedule, simple_trial};
use crate::dual::{DrawMode, DualRecord, Focus, dual_trial};
use crate::ramp::RampRecord;
use crate::titles::{
    CHARACTER_COPIES_BEFORE_WEAPON,
    CHARACTER_HARD_PITY,
    WEAPON_HARD_PITY,
    GameData,
    Title,
    arknights_schedule,
    wuwa_schedule,
};

verus! {

/// Pulls a weapon-focused trial of a dual-pity title can take at most: two
/// character hard pities for each limited character, then one weapon hard pity.
pub const WEAPON_FOCUS_MAX_PULLS: u64 = 1340;

/// A record `(pulls, limited, weapon, character)` of the single-pity model.
pub type SimpleRow = (i32, i32, i32, i32);

/// A record `(pulls, limited, weapon, four_star, three_star)` of the dual-pity
/// model, or `(pulls, top, second, third, filler)` of the four-tier model.
pub type TierRow = (i32, i32, i32, i32, i32);

/// A single-pity record of a trial that ended within `hard_pity` pulls on the
/// character banner (`on_character`) or the weapon banner.
pub open spec fn simple_row_ok(t: SimpleRow, hard_pity: int, on_character: bool) -> bool {
    &&& 1 <= t.0 <= hard_pity
    &&& 0 <= t.1 <= 1
    &&& t.2 == (if on_character { 0int } else { 1int })
    &&& t.3 == (if on_character { 1int } else { 0int })
}

/// A dual-pity record of a character-focused trial: it stops at the first
/// character top-tier hit, within the character hard pity, and at most nine
/// three-star pulls come before each other pull.
pub open spec fn character_row_ok(t: TierRow) -> bool {
    &&& t.4 <= 9 * (t.0 - t.4)
    &&& 1 <= t.0 <= CHARACTER_HARD_PITY
    &&& 0 <= t.1 <= 1
    &&& t.2 == 0
    &&& t.3 >= 0
    &&& t.4 >= 0
    &&& t.3 + t.4 + 1 == t.0
}

/// A dual-pity record of a weapon-focused trial: the limited characters first,
/// then the first weapon top-tier hit. Besides the three- and four-star pulls
/// there are the seven limited hits, up to seven generic ones, and the weapon hit.
pub open spec fn weapon_row_ok(t: TierRow) -> bool {
    &&& t.4 <= 9 * (t.0 - t.4)
    &&& 8 <= t.0 - t.3 - t.4 <= 15
    &&& 1 <= t.0 <= WEAPON_FOCUS_MAX_PULLS
    &&& t.1 == CHARACTER_COPIES_BEFORE_WEAPON
    &&& 0 <= t.2 <= 1
    &&& t.3 >= 0
    &&& t.4 >= 0
    &&& t.1 + t.2 + t.3 + t.4 <= t.0
}

/// A four-tier record of the four-tier title: one top-tier hit, on the last of at
/// most 99 pulls.
pub open spec fn ramp_row_ok(t: TierRow) -> bool {
    &&& 1 <= t.0 <= 99
    &&& t.1 == 1
    &&& t.2 >= 0
    &&& t.3 >= 0
    &&& t.4 >= 0
    &&& t.2 + t.3 + t.4 + 1 == t.0
}

/// The number of trials asked for: none when `n` is not positive.
pub open spec fn trial_count(n: i32) -> int {
    if n > 0 {
        n as int
    } else {
        0
    }
}

/// `count` trials of the single-pity model, one banner.
fn simple_runs(schedule: &SimpleSchedule, on_character: bool, count: u64, rng: &mut PullRng) -> (r:
    Vec<SimpleRow>)
    requires
        schedule.wf(),
        schedule.hard_pity <= i32::MAX,
    ensures
        r@.len() == count,
        forall|i: int|
            0 <= i < r@.len() ==> simple_row_ok(
                #[trigger] r@[i],
                schedule.hard_pity as int,
                on_character,
            ),
{
    let mut rows: Vec<SimpleRow> = Vec::new();
    let mut done: u64 = 0;
    while done < count
        invariant
            schedule.wf(),
            schedule.hard_pity <= i32::MAX,
            done <= count,
            rows@.len() == done,
            forall|i: int|
                0 <= i < rows@.len() ==> simple_row_ok(
                    #[trigger] rows@[i],
                    schedule.hard_pity as int,
                    on_character,
                ),
        decreases count - done,
    {
        let o = simple_trial(schedule, on_character, rng);
        rows.push((o.pulls as i32, o.limited as i32, o.weapon as i32, o.character as i32));
        done = done + 1;
    }
    rows
}

fn dual_row(r: DualRecord) -> (t: TierRow)
    requires
        r.pulls <= WEAPON_FOCUS_MAX_PULLS,
        r.counted() <= r.pulls,
    ensures
        t == (r.pulls as i32, r.limited as i32, r.weapon as i32, r.four_star as i32, r.three_star
            as i32),
        t.0 == r.pulls,
        t.1 == r.limited,
        t.2 == r.weapon,
        t.3 == r.four_star,
        t.4 == r.three_star,
{
    (r.pulls as i32, r.limited as i32, r.weapon as i32, r.four_star as i32, r.three_star as i32)
}

fn ramp_row(r: RampRecord) -> (t: TierRow)
    requires
        r.pulls <= 99,
        r.top_tier + r.second_tier + r.third_tier + r.filler_tier <= r.pulls,
    ensures
        t.0 == r.pulls,
        t.1 == r.top_tier,
        t.2 == r.second_tier,
        t.3 == r.third_tier,
        t.4 == r.filler_tier,
{
    (
        r.pulls as i32,
        r.top_tier as i32,
        r.second_tier as i32,
        r.third_tier as i32,
        r.filler_tier as i32,
    )
}

/// Runs `num_simulations` trials of a dual-pity title from the stream `seed`
/// fixes. A character focus stops at the first character top-tier hit; otherwise
/// the player secures the limited characters first, then pulls the weapon banner
/// to its first top-tier hit.
pub fn h_simulate_game(game_data: &GameData, num_simulations: i32, pull_for_character: bool, seed: u64) -> (r: Vec<TierRow>)
    requires
        game_data.wf(),
    ensures
        r@.len() == trial_count(num_simulations),
        forall|i: int|
            0 <= i < r@.len() ==> if pull_for_character {
                character_row_ok(#[trigger] r@[i])
            } else {
                weapon_row_ok(r@[i])
            },
{
    let schedule = game_data.dual_schedule();
    let focus = if pull_for_character {
        Focus::Character
    } else {
        Focus::CharacterThenWeapon { target: CHARACTER_COPIES_BEFORE_WEAPON }
    };
    let mut rng = PullRng::from_seed(seed);
    let mut rows: Vec<TierRow> = Vec::new();
    let mut done: i32 = 0;
    while done < num_simulations
        invariant
            schedule == game_data.dual_spec(),
            schedule.wf(),
            focus == (if pull_for_character {
                Focus::Character
            } else {
                Focus::CharacterThenWeapon { target: CHARACTER_COPIES_BEFORE_WEAPON }
            }),
            0 <= done,
            done <= trial_count(num_simulations),
            rows@.len() == done,
            forall|i: int|
                0 <= i < rows@.len() ==> if pull_for_character {
                    character_row_ok(#[trigger] rows@[i])
                } else {
                    weapon_row_ok(rows@[i])
                },
        decreases num_simulations - done,
    {
        let record = dual_trial(&schedule, focus, DrawMode::Independent, &mut rng);
        rows.push(dual_row(record));
        done = done + 1;
    }
    rows
}

/// Runs `num_simulations` trials of the four-tier title, each until its first
/// top-tier hit, from the stream `seed` fixes.
pub fn a_simulate_game(num_simulations: i32, seed: u64) -> (r: Vec<TierRow>)
    ensures
        r@.len() == trial_count(num_simulations),
        forall|i: int| 0 <= i < r@.len() ==> ramp_row_ok(#[trigger] r@[i]),
{
    let schedule = arknights_schedule();
    let mut rng = PullRng::from_seed(seed);
    let mut rows: Vec<TierRow> = Vec::new();
    let mut done: i32 = 0;
    while done < num_simulations
        invariant
            schedule.wf(),
            schedule.pull_bound() == 99,
            0 <= done,
            done <= trial_count(num_simulations),
            rows@.len() == done,
            forall|i: int| 0 <= i < rows@.len() ==> ramp_row_ok(#[trigger] rows@[i]),
        decreases num_simulations - done,
    {
        let record = schedule.trial(&mut rng);
        rows.push(ramp_row(record));
        done = done + 1;
    }
    rows
}

/// Runs `num_simulations` trials of the single-pity title on its character
/// banner, each until its first top-tier hit, from the stream `seed` fixes.
pub fn w_simulate_game(num_simulations: i32, seed: u64) -> (r: Vec<SimpleRow>)
    ensures
        r@.len() == trial_count(num_simulations),
        forall|i: int| 0 <= i < r@.len() ==> simple_row_ok(#[trigger] r@[i], 80, true),
{
    let schedule = wuwa_schedule();
    let mut rng = PullRng::from_seed(seed);
    let count: u64 = if num_simulations > 0 {
        num_simulations as u64
    } else {
        0
    };
    simple_runs(&schedule, true, count, &mut rng)
}

/// The single-pity runs of one dual-pity title, character and weapon banner.
#[derive(Debug)]
pub struct TitleRuns {
    pub title: Title,
    pub character: Vec<SimpleRow>,
    pub weapon: Vec<SimpleRow>,
}

/// Runs, for each dual-pity title in turn, `num_threads` batches of
/// `num_simulations_per_thread` single-pity trials on the character banner, then
/// as many on the weapon banner, all from the stream `seed` fixes.
pub fn simulate_honkai_games(num_threads: i32, num_simulations_per_thread: i32, seed: u64) -> (r:
    Vec<TitleRuns>)
    ensures
        r@.len() == 3,
        r@[0].title == Title::Hsr,
        r@[1].title == Title::Genshin,
        r@[2].title == Title::Zzz,
        forall|j: int|
            0 <= j < 3 ==> {
                &&& (#[trigger] r@[j]).character@.len() == trial_count(num_threads)
                    * trial_count(num_simulations_per_thread)
                &&& r@[j].weapon@.len() == trial_count(num_threads) * trial_count(
                    num_simulations_per_thread,
                )
                &&& forall|i: int|
                    0 <= i < r@[j].character@.len() ==> simple_row_ok(
                        #[trigger] r@[j].character@[i],
                        CHARACTER_HARD_PITY as int,
                        true,
                    )
                &&& forall|i: int|
                    0 <= i < r@[j].weapon@.len() ==> simple_row_ok(
                        #[trigger] r@[j].weapon@[i],
                        WEAPON_HARD_PITY as int,
                        false,
                    )
            },
{
    let threads: u64 = if num_threads > 0 {
        num_threads as u64
    } else {
        0
    };
    let per_thread: u64 = if num_simulations_per_thread > 0 {
        num_simulations_per_thread as u64
    } else {
        0
    };
    assert(threads * per_thread <= i32::MAX as int * i32::MAX as int) by (nonlinear_arith)
        requires
            threads <= i32::MAX,
            per_thread <= i32::MAX,
    ;
    let count: u64 = threads * per_thread;
    let mut rng = PullRng::from_seed(seed);
    let titles = [Title::Hsr, Title::Genshin, Title::Zzz];
    let mut runs: Vec<TitleRuns> = Vec::new();
    let mut k: usize = 0;
    while k < 3
        invariant
            titles@ == seq![Title::Hsr, Title::Genshin, Title::Zzz],
            count == trial_count(num_threads) * trial_count(num_simulations_per_thread),
            k <= 3,
            runs@.len() == k,
            forall|j: int| 0 <= j < k ==> (#[trigger] runs@[j]).title == titles@[j],
            forall|j: int|
                0 <= j < k ==> {
                    &&& (#[trigger] runs@[j]).character@.len() == count
                    &&& runs@[j].weapon@.len() == count
                    &&& forall|i: int|
                        0 <= i < runs@[j].character@.len() ==> simple_row_ok(
                            #[trigger] runs@[j].character@[i],
                            CHARACTER_HARD_PITY as int,
                            true,
                        )
                    &&& forall|i: int|
                        0 <= i < runs@[j].weapon@.len() ==> simple_row_ok(
                            #[trigger] runs@[j].weapon@[i],
                            WEAPON_HARD_PITY as int,
                            false,
                        )
                },
        decreases 3 - k,
    {
        let title = titles[k];
        let data = title.game_data();
        let character = simple_runs(&data.simple_character(), true, count, &mut rng);
        let weapon = simple_runs(&data.simple_weapon(), false, count, &mut rng);
        runs.push(TitleRuns { title, character, weapon });
        k = k + 1;
    }
    runs
}

} // verus!
