use twinstick_arena::engine::gamepad::TwinStick;
use twinstick_arena::engine::math::Vec2;
use twinstick_arena::engine::tiled::{TileLayer, TileMap};
use twinstick_arena::engine::GameContext;
use twinstick_arena::game::scores::ease;
use twinstick_arena::game::{Boss, Bullet, Enemy, MyGame, PowerUp, Shooter, SpawnPoint};

fn map_of(data: Vec<u8>) -> TileMap {
    TileMap { width: 60, height: 34, layers: vec![TileLayer { width: 60, height: 34, data }] }
}

fn open_game(seed: u64) -> MyGame {
    let mut game = MyGame::new();
    game.map = Some(map_of(vec![30u8; 60 * 34]));
    game.reseed(seed);
    game
}

fn ctx() -> GameContext {
    GameContext {
        tick: 1,
        window_width: 960_000,
        window_height: 540_000,
        gamepad_1: TwinStick::new(),
        gamepad_2: TwinStick::new(),
    }
}

fn boss(x: i32, y: i32, heat: i32, charging: bool, tx: i32) -> Boss {
    Boss { pos: Vec2::new(x, y), health: 80, heat, charging, tx }
}

#[test]
fn a_score_that_has_caught_up_gains_nothing() {
    let mut game = open_game(0);
    game.player_1.score = 375;
    game.player_1.next_score = 375;
    game.player_2.score = 0;
    game.player_2.next_score = 0;
    for _ in 0..1000 {
        game.update_scores();
        assert_eq!(game.player_1.score, 375);
        assert_eq!(game.player_2.score, 0);
    }
}

#[test]
fn a_score_chases_what_is_owed_by_25_then_by_5() {
    let mut game = open_game(0);
    game.player_1.next_score = 125;
    let mut seen = Vec::new();
    for _ in 0..14 {
        game.update_scores();
        seen.push(game.player_1.score);
    }
    assert_eq!(seen, vec![25, 50, 75, 80, 85, 90, 95, 100, 105, 110, 115, 120, 125, 125]);
    assert_eq!(game.player_2.score, 0);
}

#[test]
fn easing_at_the_edges() {
    assert_eq!(ease(0, 51), 25);
    assert_eq!(ease(0, 50), 5);
    assert_eq!(ease(0, 1), 5);
    assert_eq!(ease(0, 0), 0);
    assert_eq!(ease(10, 0), 10);
    assert_eq!(ease(-100, -98), -95);
    assert_eq!(ease(i32::MIN, i32::MAX), i32::MIN + 25);
    assert_eq!(ease(i32::MAX - 1, i32::MAX), i32::MAX);
}

#[test]
fn a_score_may_pass_what_is_owed_by_up_to_four() {
    let mut game = open_game(0);
    game.player_2.score = 3;
    game.player_2.next_score = 4;
    game.update_scores();
    assert_eq!(game.player_2.score, 8);
    game.update_scores();
    assert_eq!(game.player_2.score, 8);
}

#[test]
fn power_ups_in_reach_are_picked_up() {
    let mut game = open_game(0);
    game.player_1.pos = Vec2::new(100_000, 100_000);
    game.player_2.pos = Vec2::new(500_000, 100_000);
    game.power_ups = vec![
        PowerUp { pos: Vec2::new(110_000, 100_000), kind: 0 },
        PowerUp { pos: Vec2::new(300_000, 100_000), kind: 0 },
        PowerUp { pos: Vec2::new(500_000, 115_999), kind: 1 },
        PowerUp { pos: Vec2::new(500_000, 116_000), kind: 1 },
        PowerUp { pos: Vec2::new(100_000, 90_000), kind: 1 },
        PowerUp { pos: Vec2::new(100_000, 95_000), kind: 0 },
    ];
    game.player_1.health = 3;
    game.player_1.ammo = 10;
    game.update_power_ups();
    assert_eq!(game.player_1.ammo, 60);
    assert_eq!(game.player_1.health, 8);
    assert_eq!(game.player_2.ammo, 250);
    assert_eq!(game.player_2.health, 20);
    assert_eq!(
        game.power_ups,
        vec![
            PowerUp { pos: Vec2::new(300_000, 100_000), kind: 0 },
            PowerUp { pos: Vec2::new(500_000, 116_000), kind: 1 },
        ]
    );
}

#[test]
fn a_power_up_that_both_reach_is_credited_to_both() {
    let mut game = open_game(0);
    game.player_1.pos = Vec2::new(100_000, 100_000);
    game.player_2.pos = Vec2::new(110_000, 100_000);
    game.power_ups = vec![PowerUp { pos: Vec2::new(105_000, 100_000), kind: 1 }];
    game.update_power_ups();
    assert_eq!(game.player_1.health, 20);
    assert_eq!(game.player_2.health, 20);
    assert!(game.power_ups.is_empty());
}

#[test]
fn a_power_up_revives_a_dead_player() {
    let mut game = open_game(0);
    game.player_1.health = -2;
    game.power_ups = vec![PowerUp { pos: game.player_1.pos, kind: 1 }];
    game.update_power_ups();
    assert_eq!(game.player_1.health, 3);
}

#[test]
fn a_power_up_of_an_unknown_kind_is_taken_and_gives_nothing() {
    let mut game = open_game(0);
    game.power_ups = vec![PowerUp { pos: game.player_1.pos, kind: 7 }];
    game.update_power_ups();
    assert!(game.power_ups.is_empty());
    assert_eq!((game.player_1.ammo, game.player_1.health), (250, 15));
}

#[test]
fn power_ups_never_time_out() {
    let mut game = open_game(0);
    game.power_ups = vec![PowerUp { pos: Vec2::new(900_000, 500_000), kind: 0 }];
    for _ in 0..2000 {
        game.update_power_ups();
    }
    assert_eq!(game.power_ups.len(), 1);
}

#[test]
fn most_ticks_spawn_nothing_and_take_one_roll() {
    let mut game = open_game(0);
    game.spawn_enemies();
    assert!(game.enemies.is_empty());
    assert_eq!(game.rng.state, 1442695040888963407);
}

#[test]
fn a_charged_spawn_point_produces_an_enemy_of_its_kind() {
    let mut game = open_game(277);
    game.spawn_enemies();
    assert_eq!(game.enemies, vec![Enemy { pos: Vec2::new(480_000, 304_000), heading: 109, kind: 0 }]);
    assert_eq!(game.rng.state, 9708799643875791410);
    assert_eq!(game.spawn_points[0].charges, 1);
}

#[test]
fn a_spawn_point_without_a_charge_produces_nothing() {
    let mut game = open_game(17);
    game.spawn_enemies();
    assert!(game.enemies.is_empty());
    assert_eq!(game.rng.state, 604063801117309355);
    let mut other = open_game(17);
    other.spawn_points[1].charges = 5;
    other.spawn_enemies();
    assert_eq!(other.enemies, vec![Enemy { pos: Vec2::new(208_000, 368_000), heading: 2199, kind: 1 }]);
}

#[test]
fn nothing_spawns_while_the_boss_is_there() {
    let mut game = open_game(277);
    game.boss = Some(boss(264_000, -55_000, 100_000, false, 200_000));
    game.spawn_enemies();
    assert!(game.enemies.is_empty());
    assert_eq!(game.rng.state, {
        let mut fresh = open_game(277);
        fresh.rng.roll();
        fresh.rng.state
    });
}

#[test]
fn a_destroyed_spawn_point_never_spawns_whatever_the_seed() {
    for seed in 0..3000u64 {
        let mut game = open_game(seed);
        game.spawn_points[0] = SpawnPoint { pos: Vec2::new(480_000, 304_000), kind: 3, charges: 0 };
        game.spawn_enemies();
        assert!(game.enemies.is_empty(), "seed {}", seed);
    }
}

#[test]
fn an_enemy_walks_one_unit_along_its_heading_and_swerves() {
    let mut game = open_game(0);
    game.enemies = vec![Enemy { pos: Vec2::new(200_000, 200_000), heading: 0, kind: 1 }];
    game.update_enemies(&ctx());
    assert_eq!(game.enemies, vec![Enemy { pos: Vec2::new(201_000, 200_000), heading: -38, kind: 1 }]);
    assert!(game.bullets.is_empty());
    assert_eq!(game.rng.state, 1876011003808476466);
}

#[test]
fn an_enemy_holds_before_a_wall_but_keeps_turning() {
    let mut data = vec![30u8; 60 * 34];
    data[12 + 13 * 60] = 1;
    let mut game = open_game(0);
    game.map = Some(map_of(data));
    game.enemies = vec![Enemy { pos: Vec2::new(200_000, 200_000), heading: 1571, kind: 1 }];
    game.update_enemies(&ctx());
    assert_eq!(game.enemies, vec![Enemy { pos: Vec2::new(200_000, 200_000), heading: 1533, kind: 1 }]);
}

#[test]
fn an_enemy_fires_at_player_one_once_in_a_hundred_ticks() {
    let mut game = open_game(17);
    game.enemies = vec![Enemy { pos: Vec2::new(200_000, 200_000), heading: 0, kind: 2 }];
    game.update_enemies(&ctx());
    assert_eq!(
        game.bullets,
        vec![Bullet(Vec2::new(201_000, 200_000), Vec2::new(-4970, -4921), Shooter::Enemy(2))]
    );
    assert_eq!(game.enemies, vec![Enemy { pos: Vec2::new(201_000, 200_000), heading: 100, kind: 2 }]);
    assert_eq!(game.rng.state, 6215382037137340766);
}

#[test]
fn an_enemy_fires_at_player_two_as_often() {
    let mut game = open_game(153);
    game.enemies = vec![Enemy { pos: Vec2::new(200_000, 200_000), heading: 0, kind: 0 }];
    game.update_enemies(&ctx());
    assert_eq!(
        game.bullets,
        vec![Bullet(Vec2::new(201_000, 200_000), Vec2::new(-1897, -6734), Shooter::Enemy(0))]
    );
    assert_eq!(game.enemies[0].heading, -200);
    assert_eq!(game.rng.state, 3501971167133563782);
}

#[test]
fn an_enemy_next_to_its_target_still_fires_at_seven_units() {
    let mut game = open_game(17);
    game.player_1.pos = Vec2::new(201_001, 200_001);
    game.enemies = vec![Enemy { pos: Vec2::new(200_000, 200_000), heading: 0, kind: 2 }];
    game.update_enemies(&ctx());
    assert_eq!(
        game.bullets,
        vec![Bullet(Vec2::new(201_000, 200_000), Vec2::new(4949, 4949), Shooter::Enemy(2))]
    );
}

#[test]
fn an_enemy_standing_on_its_target_fires_nothing() {
    let mut game = open_game(17);
    game.player_1.pos = Vec2::new(201_000, 200_000);
    game.enemies = vec![Enemy { pos: Vec2::new(200_000, 200_000), heading: 0, kind: 2 }];
    game.update_enemies(&ctx());
    assert!(game.bullets.is_empty());
    assert_eq!(game.rng.state, 6215382037137340766);
}

#[test]
fn enemies_that_leave_the_window_are_gone() {
    let mut game = open_game(0);
    game.enemies = vec![
        Enemy { pos: Vec2::new(959_500, 100_000), heading: 0, kind: 0 },
        Enemy { pos: Vec2::new(500_000, 100_000), heading: 0, kind: 1 },
        Enemy { pos: Vec2::new(500, 100_000), heading: 3142, kind: 2 },
        Enemy { pos: Vec2::new(100_000, 539_500), heading: 1571, kind: 0 },
    ];
    game.update_enemies(&ctx());
    assert_eq!(game.enemies.len(), 1);
    assert_eq!(game.enemies[0].pos, Vec2::new(501_000, 100_000));
    assert_eq!(game.enemies[0].kind, 1);
}

#[test]
fn the_boss_comes_down_one_unit_a_tick() {
    let mut game = open_game(0);
    game.boss = Some(boss(264_000, -55_000, 100_000, false, 269_500));
    game.update_boss();
    assert_eq!(game.boss, Some(boss(264_000, -54_000, 100_000, false, 269_500)));
    for _ in 0..259 {
        game.update_boss();
    }
    assert_eq!(game.boss, Some(boss(264_000, 205_000, 100_000, false, 269_500)));
    assert_eq!(game.rng.state, 0);
}

#[test]
fn the_boss_drifts_to_its_place_and_starts_charging() {
    let mut game = open_game(0);
    game.boss = Some(boss(264_000, 205_000, 100_000, false, 269_500));
    game.update_boss();
    assert_eq!(game.boss, Some(boss(265_500, 205_000, 101_000, false, 269_500)));
    game.update_boss();
    assert_eq!(game.boss, Some(boss(267_000, 205_000, 102_000, false, 269_500)));
    game.update_boss();
    assert_eq!(game.boss, Some(boss(268_500, 205_000, 103_000, false, 269_500)));
    game.update_boss();
    assert_eq!(game.boss, Some(boss(268_500, 205_000, 0, true, 269_500)));
    let mut other = open_game(0);
    other.boss = Some(boss(300_000, 205_000, 5000, false, 100_000));
    other.update_boss();
    assert_eq!(other.boss, Some(boss(298_500, 205_000, 6000, false, 100_000)));
}

#[test]
fn a_charging_boss_fires_a_ring_when_its_heat_passes_25() {
    let mut game = open_game(0);
    game.boss = Some(boss(300_000, 205_000, 0, true, 300_000));
    for heat in 1..=25 {
        game.update_boss();
        assert_eq!(game.boss, Some(boss(300_000, 205_000, heat * 1000, true, 300_000)));
        assert!(game.bullets.is_empty());
    }
    game.update_boss();
    assert_eq!(game.boss, Some(boss(300_000, 205_000, 0, false, 238_600)));
    let at = Vec2::new(300_000, 205_000);
    let velocities = [
        (4550, 2060),
        (2475, 4335),
        (-550, 4965),
        (-3355, 3690),
        (-4890, 1025),
        (-4550, -2060),
        (-2475, -4335),
        (550, -4965),
        (3355, -3690),
        (4890, -1025),
    ];
    let expected: Vec<Bullet> =
        velocities.iter().map(|&(x, y)| Bullet(at, Vec2::new(x, y), Shooter::Boss)).collect();
    assert_eq!(game.bullets, expected);
    assert_eq!(game.rng.state, 1876011003808476466);
}

#[test]
fn the_bosss_next_place_is_pushed_back_from_the_edges() {
    let mut left = open_game(0);
    left.boss = Some(boss(60_000, 205_000, 25_000, true, 60_000));
    left.update_boss();
    assert_eq!(left.boss.map(|b| b.tx), Some(50_000));
    let mut right = open_game(277);
    right.boss = Some(boss(1_100_000, 205_000, 25_000, true, 1_100_000));
    right.update_boss();
    assert_eq!(right.boss.map(|b| b.tx), Some(1_141_000));
}

#[test]
fn a_push_that_lands_on_the_field_is_kept() {
    let mut left = open_game(0);
    left.boss = Some(boss(101_400, 205_000, 25_000, true, 101_400));
    left.update_boss();
    assert_eq!(left.boss.map(|b| b.tx), Some(90_000));
    let mut right = open_game(277);
    right.boss = Some(boss(1_051_800, 205_000, 25_000, true, 1_051_800));
    right.update_boss();
    assert_eq!(right.boss.map(|b| b.tx), Some(1_130_000));
    let mut middle = open_game(0);
    middle.boss = Some(boss(120_000, 205_000, 25_000, true, 120_000));
    middle.update_boss();
    assert_eq!(middle.boss.map(|b| b.tx), Some(58_600));
}

#[test]
fn the_bosss_next_place_never_leaves_the_field() {
    for seed in 0..4000u64 {
        for start in [50_000, 51_000, 149_000, 600_000, 1_040_000, 1_141_000] {
            let mut game = open_game(seed);
            game.boss = Some(boss(start, 205_000, 25_000, true, start));
            game.update_boss();
            let next = game.boss.map(|b| b.tx).expect("the boss stays");
            assert!((50_000..=1_141_000).contains(&next), "seed {} from {}: {}", seed, start, next);
            assert!((next - start).abs() <= 100_000, "seed {} from {}: {}", seed, start, next);
        }
    }
}

#[test]
fn without_a_boss_the_bosss_part_does_nothing() {
    let mut game = open_game(5);
    game.update_boss();
    assert!(game.boss.is_none());
    assert!(game.bullets.is_empty());
    assert_eq!(game.rng.state, 5);
}
