use vstd::prelude::*;
use crate::rates::RATE_SCALE;
use crate::track::TrackSchedule;
use crate::simple::SimpleSchedule;
use crate::dual::{DualSchedule, SecondarySchedule};
use crate::ramp::RampSchedule;

verus! {

/// Top-tier character rate shared by the dual-pity titles (0.6%).
pub const CHARACTER_BASE_RATE: u64 = 6_000_000;
/// Soft-pity increment shared by both tracks of the dual-pity titles (6.2%).
pub const SOFT_PITY_INCREMENT: u64 = 62_000_000;
pub const CHARACTER_SOFT_PITY: u64 = 74;
pub const CHARACTER_HARD_PITY: u64 = 90;
pub const WEAPON_SOFT_PITY: u64 = 64;
pub const WEAPON_HARD_PITY: u64 = 80;
/// Four-star rate of the dual-pity titles (5.1%).
pub const FOUR_STAR_RATE: u64 = 51_000_000;
pub const FOUR_STAR_HARD_PITY: u64 = 10;
/// Limited characters a weapon-focused player secures before the weapon banner.
pub const CHARACTER_COPIES_BEFORE_WEAPON: u64 = 7;

/// The per-title constants of a dual-pity title.
#[derive(Clone, Copy, Debug, PartialEq, Eq, Structural)]
pub struct GameData {
    pub five_star_weapon_chance: u64,
    pub limited_character_chance: u64,
    pub limited_weapon_chance: u64,
}

impl GameData {
    pub fn new(five_star_weapon_chance: u64, limited_character_chance: u64, limited_weapon_chance: u64) -> (r: GameData)
        ensures
            r.five_star_weapon_chance == five_star_weapon_chance,
            r.limited_character_chance == limited_character_chance,
            r.limited_weapon_chance == limited_weapon_chance,
    {
        GameData { five_star_weapon_chance, limited_character_chance, limited_weapon_chance }
    }

    /// Every chance is a probability.
    pub open spec fn wf(&self) -> bool {
        &&& self.five_star_weapon_chance <= RATE_SCALE
        &&& self.limited_character_chance <= RATE_SCALE
        &&& self.limited_weapon_chance <= RATE_SCALE
    }

    pub open spec fn character_track(&self) -> TrackSchedule {
        TrackSchedule {
            base_rate: CHARACTER_BASE_RATE,
            hard_pity: CHARACTER_HARD_PITY,
            soft_pity_start: CHARACTER_SOFT_PITY,
            soft_pity_increment: SOFT_PITY_INCREMENT,
            guarantee_chance: self.limited_character_chance,
        }
    }

    pub open spec fn weapon_track(&self) -> TrackSchedule {
        TrackSchedule {
            base_rate: self.five_star_weapon_chance,
            hard_pity: WEAPON_HARD_PITY,
            soft_pity_start: WEAPON_SOFT_PITY,
            soft_pity_increment: SOFT_PITY_INCREMENT,
            guarantee_chance: self.limited_weapon_chance,
        }
    }

    pub open spec fn dual_spec(&self) -> DualSchedule {
        DualSchedule {
            character: self.character_track(),
            weapon: self.weapon_track(),
            secondary: SecondarySchedule { rate: FOUR_STAR_RATE, hard_pity: FOUR_STAR_HARD_PITY },
        }
    }

    /// The dual-pity schedule of this title.
    pub fn dual_schedule(&self) -> (r: DualSchedule)
        ensures
            r == self.dual_spec(),
            self.wf() ==> r.wf(),
    {
        DualSchedule {
            character: TrackSchedule {
                base_rate: CHARACTER_BASE_RATE,
                hard_pity: CHARACTER_HARD_PITY,
                soft_pity_start: CHARACTER_SOFT_PITY,
                soft_pity_increment: SOFT_PITY_INCREMENT,
                guarantee_chance: self.limited_character_chance,
            },
            weapon: TrackSchedule {
                base_rate: self.five_star_weapon_chance,
                hard_pity: WEAPON_HARD_PITY,
                soft_pity_start: WEAPON_SOFT_PITY,
                soft_pity_increment: SOFT_PITY_INCREMENT,
                guarantee_chance: self.limited_weapon_chance,
            },
            secondary: SecondarySchedule { rate: FOUR_STAR_RATE, hard_pity: FOUR_STAR_HARD_PITY },
        }
    }

    /// The single-pity model of this title's character banner: its base rate,
    /// hard pity and 50/50, without the ramp.
    pub fn simple_character(&self) -> (r: SimpleSchedule)
        ensures
            r.base_rate == CHARACTER_BASE_RATE,
            r.hard_pity == CHARACTER_HARD_PITY,
            r.guarantee_chance == self.limited_character_chance,
            self.wf() ==> r.wf(),
    {
        SimpleSchedule {
            base_rate: CHARACTER_BASE_RATE,
            hard_pity: CHARACTER_HARD_PITY,
            guarantee_chance: self.limited_character_chance,
        }
    }

    /// The single-pity model of this title's weapon banner.
    pub fn simple_weapon(&self) -> (r: SimpleSchedule)
        ensures
            r.base_rate == self.five_star_weapon_chance,
            r.hard_pity == WEAPON_HARD_PITY,
            r.guarantee_chance == self.limited_weapon_chance,
            self.wf() ==> r.wf(),
    {
        SimpleSchedule {
            base_rate: self.five_star_weapon_chance,
            hard_pity: WEAPON_HARD_PITY,
            guarantee_chance: self.limited_weapon_chance,
        }
    }
}

/// The dual-pity titles.
#[derive(Clone, Copy, Debug, PartialEq, Eq, Structural)]
pub enum Title {
    Hsr,
    Genshin,
    Zzz,
}

impl Title {
    /// The short name under which the title's records are filed.
    pub fn name(&self) -> (r: &'static str)
        ensures
            *self == Title::Hsr ==> r@ == "hsr"@,
            *self == Title::Genshin ==> r@ == "genshin"@,
            *self == Title::Zzz ==> r@ == "zzz"@,
    {
        match self {
            Title::Hsr => "hsr",
            Title::Genshin => "genshin",
            Title::Zzz => "zzz",
        }
    }

    /// The title's constants: weapon top-tier rate, character 50/50, weapon 50/50.
    pub fn game_data(&self) -> (r: GameData)
        ensures
            r.wf(),
            *self == Title::Hsr ==> r == GameData::new_spec(8_000_000, 500_000_000, 750_000_000),
            *self == Title::Genshin ==> r == GameData::new_spec(7_000_000, 550_000_000, 750_000_000),
            *self == Title::Zzz ==> r == GameData::new_spec(10_000_000, 500_000_000, 750_000_000),
    {
        match self {
            Title::Hsr => GameData::new(8_000_000, 500_000_000, 750_000_000),
            Title::Genshin => GameData::new(7_000_000, 550_000_000, 750_000_000),
            Title::Zzz => GameData::new(10_000_000, 500_000_000, 750_000_000),
        }
    }
}

impl GameData {
    pub open spec fn new_spec(w: u64, c: u64, l: u64) -> GameData {
        GameData { five_star_weapon_chance: w, limited_character_chance: c, limited_weapon_chance: l }
    }
}

/// The single-pity title: 0.8% top tier, hard pity at 80, an even 50/50.
pub fn wuwa_schedule() -> (r: SimpleSchedule)
    ensures
        r == (SimpleSchedule { base_rate: 8_000_000, hard_pity: 80, guarantee_chance: 500_000_000 }),
        r.wf(),
{
    SimpleSchedule { base_rate: 8_000_000, hard_pity: 80, guarantee_chance: 500_000_000 }
}

/// The four-tier title: 2% / 8% / 50% / 40%, with the top tier rising by 2% for
/// each pull past 50 and no hard pity; the ramp makes the 99th pull certain.
pub fn arknights_schedule() -> (r: RampSchedule)
    ensures
        r == (RampSchedule {
            top_rate: 20_000_000,
            second_rate: 80_000_000,
            third_rate: 500_000_000,
            filler_rate: 400_000_000,
            soft_pity_start: 50,
            increment: 20_000_000,
            hard_pity: 0,
        }),
        r.wf(),
        r.pull_bound() == 99,
{
    assert((RATE_SCALE - 20_000_000 + 20_000_000 - 1) / 20_000_000int == 49int) by (nonlinear_arith);
    RampSchedule {
        top_rate: 20_000_000,
        second_rate: 80_000_000,
        third_rate: 500_000_000,
        filler_rate: 400_000_000,
        soft_pity_start: 50,
        increment: 20_000_000,
        hard_pity: 0,
    }
}

} // verus!
