use gacha_sim::batch::{a_simulate_game, h_simulate_game, simulate_honkai_games, w_simulate_game};
use gacha_sim::plan::{ConfigError, RunConfig};
use gacha_sim::titles::{GameData, Title};

#[test]
fn h_simulate_game_character_focus() {
    let g = GameData::new(8_000_000, 500_000_000, 750_000_000);
    let rows = h_simulate_game(&g, 500, true, 1);
    assert_eq!(rows.len(), 500);
    for (pulls, limited, weapon, four, three) in rows {
        assert!(pulls >= 1 && pulls <= 90);
        assert!(limited == 0 || limited == 1);
        assert_eq!(weapon, 0);
        assert_eq!(four + three + 1, pulls);
        assert!(three <= 9 * (pulls - three));
    }
}

#[test]
fn h_simulate_game_weapon_focus() {
    let g = GameData::new(7_000_000, 550_000_000, 750_000_000);
    let rows = h_simulate_game(&g, 200, false, 2);
    assert_eq!(rows.len(), 200);
    for (pulls, limited, weapon, four, three) in rows {
        assert_eq!(limited, 7);
        assert!(weapon == 0 || weapon == 1);
        assert!(pulls >= 8 && pulls <= 1340);
        assert!(limited + weapon + four + three <= pulls);
        assert!(pulls - four - three >= 8 && pulls - four - three <= 15);
        assert!(three <= 9 * (pulls - three));
    }
}

#[test]
fn h_simulate_game_is_seeded() {
    let g = Title::Zzz.game_data();
    assert_eq!(h_simulate_game(&g, 50, true, 9), h_simulate_game(&g, 50, true, 9));
    assert_ne!(h_simulate_game(&g, 50, true, 9), h_simulate_game(&g, 50, true, 10));
}

#[test]
fn non_positive_counts_run_nothing() {
    let g = Title::Hsr.game_data();
    assert!(h_simulate_game(&g, 0, true, 1).is_empty());
    assert!(h_simulate_game(&g, -5, false, 1).is_empty());
    assert!(a_simulate_game(-1, 1).is_empty());
    assert!(w_simulate_game(0, 1).is_empty());
    let runs = simulate_honkai_games(-2, 10, 1);
    assert_eq!(runs.len(), 3);
    assert!(runs.iter().all(|r| r.character.is_empty() && r.weapon.is_empty()));
}

#[test]
fn a_simulate_game_rows() {
    let rows = a_simulate_game(3000, 4);
    assert_eq!(rows.len(), 3000);
    let mut ramped = false;
    for (pulls, top, second, third, filler) in rows {
        assert!(pulls >= 1 && pulls <= 99);
        assert_eq!(top, 1);
        assert_eq!(second + third + filler + 1, pulls);
        if pulls > 50 {
            ramped = true;
        }
    }
    assert!(ramped);
}

#[test]
fn w_simulate_game_rows() {
    let rows = w_simulate_game(1000, 6);
    assert_eq!(rows.len(), 1000);
    let limited: i32 = rows.iter().map(|r| r.1).sum();
    for (pulls, limited, weapon, character) in rows {
        assert!(pulls >= 1 && pulls <= 80);
        assert!(limited == 0 || limited == 1);
        assert_eq!(weapon, 0);
        assert_eq!(character, 1);
    }
    // an even 50/50
    assert!(limited > 400 && limited < 600);
}

#[test]
fn simulate_honkai_games_covers_each_title() {
    let runs = simulate_honkai_games(4, 25, 77);
    let titles: Vec<Title> = runs.iter().map(|r| r.title).collect();
    assert_eq!(titles, vec![Title::Hsr, Title::Genshin, Title::Zzz]);
    for r in &runs {
        assert_eq!(r.character.len(), 100);
        assert_eq!(r.weapon.len(), 100);
        for &(pulls, limited, weapon, character) in &r.character {
            assert!(pulls >= 1 && pulls <= 90);
            assert!(limited <= 1);
            assert_eq!((weapon, character), (0, 1));
        }
        for &(pulls, limited, weapon, character) in &r.weapon {
            assert!(pulls >= 1 && pulls <= 80);
            assert!(limited <= 1);
            assert_eq!((weapon, character), (1, 0));
        }
    }
}

#[test]
fn run_config_errors() {
    assert_eq!(RunConfig::new(0, 10), Err(ConfigError::NoSimulations));
    assert_eq!(RunConfig::new(0, 0), Err(ConfigError::NoSimulations));
    assert_eq!(RunConfig::new(10, 0), Err(ConfigError::EmptyChunks));
    assert_eq!(RunConfig::new(10, 3), Ok(RunConfig { simulations: 10, chunk_size: 3 }));
}

#[test]
fn run_config_chunks() {
    let c = RunConfig::new(25, 10).unwrap();
    assert_eq!(c.chunks(), vec![10, 10, 5]);
    let c = RunConfig::new(30, 10).unwrap();
    assert_eq!(c.chunks(), vec![10, 10, 10]);
    let c = RunConfig::new(1_000_000, 10_000).unwrap();
    let chunks = c.chunks();
    assert_eq!(chunks.len(), 100);
    assert_eq!(chunks.iter().sum::<u64>(), 1_000_000);
    let c = RunConfig::new(3, 10).unwrap();
    assert_eq!(c.chunks(), vec![3]);
}
