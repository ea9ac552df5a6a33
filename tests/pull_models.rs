use gacha_sim::dice::PullRng;
use gacha_sim::dual::{
    dual_trial, DrawMode, DualRecord, DualSchedule, DualState, Focus, PullCategory, PullDraws,
    SecondarySchedule,
};
use gacha_sim::ramp::{RampRecord, RampSchedule, RampState, Tier, TierRates};
use gacha_sim::rates::{ramped_rate, RATE_SCALE};
use gacha_sim::simple::{simple_trial, SimpleSchedule};
use gacha_sim::titles::{arknights_schedule, wuwa_schedule, GameData, Title};
use gacha_sim::track::{TopTier, TrackSchedule, TrackState};

fn hsr_schedule() -> DualSchedule {
    Title::Hsr.game_data().dual_schedule()
}

#[test]
fn certain_base_rate_ends_simple_trial_at_first_pull() {
    let schedule = SimpleSchedule { base_rate: RATE_SCALE, hard_pity: 80, guarantee_chance: 500_000_000 };
    for seed in 0..50u64 {
        let mut rng = PullRng::from_seed(seed);
        let o = simple_trial(&schedule, true, &mut rng);
        assert_eq!(o.pulls, 1);
        assert!(o.limited == 0 || o.limited == 1);
        assert_eq!(o.character, 1);
        assert_eq!(o.weapon, 0);
    }
}

#[test]
fn certain_top_rate_ends_ramp_trial_at_first_pull() {
    let schedule = RampSchedule {
        top_rate: RATE_SCALE,
        second_rate: 0,
        third_rate: 0,
        filler_rate: 0,
        soft_pity_start: 50,
        increment: 0,
        hard_pity: 1_000_000,
    };
    for seed in 0..50u64 {
        let mut rng = PullRng::from_seed(seed);
        let r = schedule.trial(&mut rng);
        assert_eq!(r, RampRecord { pulls: 1, top_tier: 1, second_tier: 0, third_tier: 0, filler_tier: 0 });
    }
}

#[test]
fn simple_model_mean_matches_capped_geometric() {
    let schedule = wuwa_schedule();
    assert_eq!(schedule.base_rate, 8_000_000);
    assert_eq!(schedule.hard_pity, 80);
    let mut rng = PullRng::from_seed(20_240_601);
    let n = 10_000u64;
    let mut total = 0u64;
    for _ in 0..n {
        let o = simple_trial(&schedule, true, &mut rng);
        assert!(o.pulls >= 1 && o.pulls <= 80);
        total += o.pulls;
    }
    let mean = total as f64 / n as f64;
    // a draw u succeeds when u <= base_rate: (base_rate + 1) values of RATE_SCALE
    let p = (schedule.base_rate as f64 + 1.0) / RATE_SCALE as f64;
    let expected = (1.0 - (1.0 - p).powi(80)) / p;
    assert!((mean - expected).abs() <= 0.05 * expected, "mean {} expected {}", mean, expected);
}

#[test]
fn simple_trial_never_passes_hard_pity() {
    let schedule = SimpleSchedule { base_rate: 0, hard_pity: 5, guarantee_chance: 0 };
    let mut rng = PullRng::from_seed(3);
    for _ in 0..200 {
        let o = simple_trial(&schedule, false, &mut rng);
        assert!(o.pulls >= 1 && o.pulls <= 5);
        assert_eq!(o.weapon, 1);
        assert_eq!(o.character, 0);
    }
}

#[test]
fn ramped_rate_values() {
    assert_eq!(ramped_rate(6_000_000, 62_000_000, 74, 1), 6_000_000);
    assert_eq!(ramped_rate(6_000_000, 62_000_000, 74, 74), 6_000_000);
    assert_eq!(ramped_rate(6_000_000, 62_000_000, 74, 75), 68_000_000);
    assert_eq!(ramped_rate(6_000_000, 62_000_000, 74, 89), 936_000_000);
    assert_eq!(ramped_rate(8_000_000, 62_000_000, 64, 80), RATE_SCALE);
    assert_eq!(ramped_rate(8_000_000, 62_000_000, 64, u64::MAX), RATE_SCALE);
    assert_eq!(ramped_rate(8_000_000, 0, 64, u64::MAX), 8_000_000);
}

#[test]
fn ramp_is_monotone_past_soft_pity() {
    let t = hsr_schedule().character;
    let mut last = 0u64;
    for pity in (t.soft_pity_start + 1)..=t.hard_pity {
        let r = ramped_rate(t.base_rate, t.soft_pity_increment, t.soft_pity_start, pity);
        assert!(r >= last);
        last = r;
    }
}

#[test]
fn four_tier_rates_values() {
    let s = arknights_schedule();
    assert_eq!(s.rates_at(1), TierRates { top: 20_000_000, second: 80_000_000, third: 500_000_000, filler: 400_000_000 });
    assert_eq!(s.rates_at(50), TierRates { top: 20_000_000, second: 80_000_000, third: 500_000_000, filler: 400_000_000 });
    assert_eq!(s.rates_at(51), TierRates { top: 40_000_000, second: 78_367_346, third: 489_795_919, filler: 391_836_735 });
    assert_eq!(s.rates_at(99), TierRates { top: RATE_SCALE, second: 0, third: 0, filler: 0 });
    assert_eq!(s.rates_at(500), TierRates { top: RATE_SCALE, second: 0, third: 0, filler: 0 });
}

#[test]
fn four_tier_rates_sum_to_certainty() {
    let s = arknights_schedule();
    for pity in 0..300u64 {
        let r = s.rates_at(pity);
        assert_eq!(r.top + r.second + r.third + r.filler, RATE_SCALE);
    }
}

#[test]
fn four_tier_step_uses_cumulative_thresholds() {
    let s = arknights_schedule();
    let cases = [
        (0u64, Tier::Top),
        (19_999_999, Tier::Top),
        (20_000_000, Tier::Second),
        (99_999_999, Tier::Second),
        (100_000_000, Tier::Third),
        (599_999_999, Tier::Third),
        (600_000_000, Tier::Filler),
        (RATE_SCALE - 1, Tier::Filler),
    ];
    for (u, tier) in cases {
        let mut st = RampState { pity: 3, record: RampRecord { pulls: 3, top_tier: 0, second_tier: 1, third_tier: 1, filler_tier: 1 } };
        assert_eq!(s.step(&mut st, u), tier);
        assert_eq!(st.record.pulls, 4);
        if tier == Tier::Top {
            assert_eq!(st.pity, 0);
            assert_eq!(st.record.top_tier, 1);
        } else {
            assert_eq!(st.pity, 4);
        }
    }
}

#[test]
fn four_tier_trial_ends_by_pull_99() {
    let s = arknights_schedule();
    let mut rng = PullRng::from_seed(11);
    for _ in 0..2000 {
        let r = s.trial(&mut rng);
        assert!(r.pulls >= 1 && r.pulls <= 99);
        assert_eq!(r.top_tier, 1);
        assert_eq!(r.second_tier + r.third_tier + r.filler_tier + 1, r.pulls);
    }
}

#[test]
fn four_tier_hard_pity_forces_top_tier() {
    let s = RampSchedule {
        top_rate: 0,
        second_rate: 100_000_000,
        third_rate: 400_000_000,
        filler_rate: 500_000_000,
        soft_pity_start: 1_000,
        increment: 0,
        hard_pity: 4,
    };
    let mut rng = PullRng::from_seed(8);
    for _ in 0..100 {
        let r = s.trial(&mut rng);
        assert_eq!(r.pulls, 4);
        assert_eq!(r.top_tier, 1);
    }
}

#[test]
fn track_pull_hard_pity_and_generic_then_limited() {
    let t = TrackSchedule { base_rate: 0, hard_pity: 3, soft_pity_start: 100, soft_pity_increment: 0, guarantee_chance: 0 };
    let mut s = TrackState { pity: 0, guaranteed: false };
    // base rate 0: only draw 0 hits before hard pity
    assert_eq!(t.pull(&mut s, 1, 0), TopTier::Miss);
    assert_eq!(s, TrackState { pity: 1, guaranteed: false });
    assert_eq!(t.pull(&mut s, 1, 0), TopTier::Miss);
    // third pull is hard pity; featured draw above the 50/50 chance gives the generic item
    assert_eq!(t.pull(&mut s, RATE_SCALE - 1, 1), TopTier::Generic);
    assert_eq!(s, TrackState { pity: 0, guaranteed: true });
    assert_eq!(t.pull(&mut s, 5, 5), TopTier::Miss);
    assert_eq!(t.pull(&mut s, 0, RATE_SCALE - 1), TopTier::Limited);
    assert_eq!(s, TrackState { pity: 0, guaranteed: false });
}

#[test]
fn generic_hit_is_never_followed_by_generic_hit() {
    let schedule = hsr_schedule();
    let mut rng = PullRng::from_seed(99);
    let mut s = TrackState { pity: 0, guaranteed: false };
    let mut last_generic = false;
    for _ in 0..100_000 {
        let r = schedule.character.pull(&mut s, rng.roll(), rng.roll());
        match r {
            TopTier::Miss => {}
            TopTier::Generic => {
                assert!(!last_generic);
                last_generic = true;
            }
            TopTier::Limited => last_generic = false,
        }
        assert!(s.pity < schedule.character.hard_pity);
    }
}

#[test]
fn dual_step_secondary_pity() {
    let schedule = hsr_schedule();
    let mut s = DualState::new();
    let miss = PullDraws { top: RATE_SCALE - 1, featured: 0, secondary: RATE_SCALE - 1 };
    for i in 1..10u64 {
        assert_eq!(schedule.step(&mut s, true, miss), PullCategory::Filler);
        assert_eq!(s.secondary_pity, i);
    }
    assert_eq!(schedule.step(&mut s, true, miss), PullCategory::Secondary);
    assert_eq!(s.secondary_pity, 0);
    assert_eq!(s.record, DualRecord { pulls: 10, limited: 0, weapon: 0, four_star: 1, three_star: 9 });
    assert_eq!(s.character.pity, 10);
    let lucky = PullDraws { top: RATE_SCALE - 1, featured: 0, secondary: 51_000_000 };
    assert_eq!(schedule.step(&mut s, true, lucky), PullCategory::Secondary);
    let hit = PullDraws { top: 8_000_000, featured: 750_000_000, secondary: RATE_SCALE - 1 };
    assert_eq!(schedule.step(&mut s, false, hit), PullCategory::Limited);
    assert_eq!(s.record, DualRecord { pulls: 12, limited: 0, weapon: 1, four_star: 2, three_star: 9 });
    assert_eq!(s.weapon, TrackState { pity: 0, guaranteed: false });
    let generic = PullDraws { top: 6_000_000, featured: 550_000_000, secondary: 0 };
    assert_eq!(schedule.step(&mut s, true, generic), PullCategory::Generic);
    assert_eq!(s.character, TrackState { pity: 0, guaranteed: true });
    assert_eq!(s.record.limited, 0);
    assert_eq!(s.record.pulls, 13);
}

#[test]
fn dual_pity_counters_stay_below_hard_pity() {
    let schedule = hsr_schedule();
    let mut rng = PullRng::from_seed(5);
    let mut s = DualState::new();
    for i in 0..50_000u64 {
        let d = PullDraws { top: rng.roll(), featured: rng.roll(), secondary: rng.roll() };
        schedule.step(&mut s, i % 3 != 0, d);
        assert!(s.character.pity < schedule.character.hard_pity);
        assert!(s.weapon.pity < schedule.weapon.hard_pity);
        assert!(s.secondary_pity < schedule.secondary.hard_pity);
    }
    assert_eq!(s.record.pulls, 50_000);
}

#[test]
fn dual_trial_focus_policies() {
    let schedule = hsr_schedule();
    let mut rng = PullRng::from_seed(17);
    for mode in [DrawMode::Independent, DrawMode::Shared] {
        for _ in 0..300 {
            let c = dual_trial(&schedule, Focus::Character, mode, &mut rng);
            assert!(c.pulls >= 1 && c.pulls <= 90);
            assert_eq!(c.weapon, 0);
            assert!(c.limited <= 1);
            assert_eq!(c.four_star + c.three_star + 1, c.pulls);
            let w = dual_trial(&schedule, Focus::Weapon, mode, &mut rng);
            assert!(w.pulls >= 1 && w.pulls <= 80);
            assert_eq!(w.limited, 0);
            assert!(w.weapon <= 1);
            let b = dual_trial(&schedule, Focus::CharacterThenWeapon { target: 7 }, mode, &mut rng);
            assert_eq!(b.limited, 7);
            assert!(b.weapon <= 1);
            assert!(b.pulls >= 8 && b.pulls <= 2 * 7 * 90 + 80);
        }
    }
}

#[test]
fn combined_focus_with_no_target_is_weapon_focus() {
    let schedule = hsr_schedule();
    let mut rng = PullRng::from_seed(23);
    for _ in 0..100 {
        let b = dual_trial(&schedule, Focus::CharacterThenWeapon { target: 0 }, DrawMode::Independent, &mut rng);
        assert_eq!(b.limited, 0);
        assert!(b.pulls >= 1 && b.pulls <= 80);
    }
}

#[test]
fn secondary_hard_pity_in_shared_mode() {
    let schedule = DualSchedule {
        character: TrackSchedule { base_rate: 0, hard_pity: 1_000, soft_pity_start: 1_000, soft_pity_increment: 0, guarantee_chance: 0 },
        weapon: TrackSchedule { base_rate: 0, hard_pity: 1_000, soft_pity_start: 1_000, soft_pity_increment: 0, guarantee_chance: 0 },
        secondary: SecondarySchedule { rate: 0, hard_pity: 4 },
    };
    let mut rng = PullRng::from_seed(2);
    let r = dual_trial(&schedule, Focus::Character, DrawMode::Shared, &mut rng);
    assert!(r.pulls <= 1_000);
    // with a zero secondary rate, only the draw 0 or the pity gives a four-star
    assert!(r.four_star >= (r.pulls - 1) / 4);
}

#[test]
fn game_data_and_titles() {
    let g = GameData::new(7_000_000, 550_000_000, 750_000_000);
    assert_eq!(g.five_star_weapon_chance, 7_000_000);
    assert_eq!(g.limited_character_chance, 550_000_000);
    assert_eq!(g.limited_weapon_chance, 750_000_000);
    assert_eq!(Title::Genshin.game_data(), g);
    assert_eq!(Title::Hsr.name(), "hsr");
    assert_eq!(Title::Genshin.name(), "genshin");
    assert_eq!(Title::Zzz.name(), "zzz");
    assert_eq!(Title::Zzz.game_data().five_star_weapon_chance, 10_000_000);
    let d = g.dual_schedule();
    assert_eq!(d.character.base_rate, 6_000_000);
    assert_eq!(d.character.hard_pity, 90);
    assert_eq!(d.character.soft_pity_start, 74);
    assert_eq!(d.weapon.base_rate, 7_000_000);
    assert_eq!(d.weapon.hard_pity, 80);
    assert_eq!(d.weapon.soft_pity_start, 64);
    assert_eq!(d.weapon.guarantee_chance, 750_000_000);
    assert_eq!(d.secondary, SecondarySchedule { rate: 51_000_000, hard_pity: 10 });
    assert_eq!(g.simple_character(), SimpleSchedule { base_rate: 6_000_000, hard_pity: 90, guarantee_chance: 550_000_000 });
    assert_eq!(g.simple_weapon(), SimpleSchedule { base_rate: 7_000_000, hard_pity: 80, guarantee_chance: 750_000_000 });
}

#[test]
fn rolls_are_below_scale_and_follow_the_seed() {
    let mut a = PullRng::from_seed(42);
    let mut b = PullRng::from_seed(42);
    let mut c = PullRng::from_seed(43);
    let mut differs = false;
    let mut distinct = std::collections::HashSet::new();
    for _ in 0..1000 {
        let x = a.roll();
        assert!(x < RATE_SCALE);
        assert_eq!(x, b.roll());
        if x != c.roll() {
            differs = true;
        }
        distinct.insert(x);
    }
    assert!(differs);
    assert!(distinct.len() > 990);
}

#[test]
fn soft_pity_ramps_from_the_count_before_the_pull() {
    let t = hsr_schedule().character;
    // pre-pull pity 74 is the soft-pity start: still the base rate of 0.6%
    let mut s = TrackState { pity: 74, guaranteed: false };
    assert_eq!(t.pull(&mut s, 6_000_001, 0), TopTier::Miss);
    assert_eq!(s.pity, 75);
    // pre-pull pity 75: one increment, 6.8%
    assert_eq!(t.pull(&mut s, 68_000_001, 0), TopTier::Miss);
    let mut s = TrackState { pity: 75, guaranteed: false };
    assert_eq!(t.pull(&mut s, 68_000_000, 0), TopTier::Limited);
    let mut s = TrackState { pity: 74, guaranteed: false };
    assert_eq!(t.pull(&mut s, 50_000_000, 0), TopTier::Miss);
    // pre-pull pity 89 is the hard-pity pull
    let mut s = TrackState { pity: 89, guaranteed: false };
    assert_eq!(t.pull(&mut s, RATE_SCALE - 1, RATE_SCALE - 1), TopTier::Generic);
}

#[test]
fn certain_rates_end_dual_trial_at_first_pull() {
    let t = TrackSchedule { base_rate: RATE_SCALE, hard_pity: 90, soft_pity_start: 74, soft_pity_increment: 62_000_000, guarantee_chance: RATE_SCALE };
    let schedule = DualSchedule { character: t, weapon: t, secondary: SecondarySchedule { rate: 51_000_000, hard_pity: 10 } };
    for seed in 0..20u64 {
        let mut rng = PullRng::from_seed(seed);
        let c = dual_trial(&schedule, Focus::Character, DrawMode::Independent, &mut rng);
        assert_eq!(c, DualRecord { pulls: 1, limited: 1, weapon: 0, four_star: 0, three_star: 0 });
        let w = dual_trial(&schedule, Focus::Weapon, DrawMode::Independent, &mut rng);
        assert_eq!(w, DualRecord { pulls: 1, limited: 0, weapon: 1, four_star: 0, three_star: 0 });
    }
}

#[test]
fn certain_guarantee_makes_simple_hit_limited() {
    let schedule = SimpleSchedule { base_rate: 8_000_000, hard_pity: 80, guarantee_chance: RATE_SCALE };
    let mut rng = PullRng::from_seed(12);
    for _ in 0..200 {
        assert_eq!(simple_trial(&schedule, true, &mut rng).limited, 1);
    }
}

#[test]
fn three_star_runs_are_shorter_than_secondary_pity() {
    let schedule = hsr_schedule();
    let mut rng = PullRng::from_seed(31);
    for _ in 0..300 {
        let r = dual_trial(&schedule, Focus::CharacterThenWeapon { target: 7 }, DrawMode::Independent, &mut rng);
        assert!(r.three_star <= 9 * (r.pulls - r.three_star));
        let generic = r.pulls - 8 - r.four_star - r.three_star;
        assert!(generic <= 7);
    }
}
