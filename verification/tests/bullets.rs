use twinstick_arena::engine::gamepad::TwinStick;
use twinstick_arena::engine::math::Vec2;
use twinstick_arena::engine::tiled::{TileLayer, TileMap};
use twinstick_arena::engine::GameContext;
use twinstick_arena::game::bullets::sweep;
use twinstick_arena::game::{
    Boss, Bullet, Enemy, MyGame, PowerUp, Shooter, SpawnPoint, Splat, Splatter,
};

fn map_of(data: Vec<u8>) -> TileMap {
    TileMap { width: 60, height: 34, layers: vec![TileLayer { width: 60, height: 34, data }] }
}

fn game_on(data: Vec<u8>, seed: u64) -> MyGame {
    let mut game = MyGame::new();
    game.map = Some(map_of(data));
    game.reseed(seed);
    game
}

fn open_game(seed: u64) -> MyGame {
    game_on(vec![30u8; 60 * 34], seed)
}

fn ctx() -> GameContext {
    GameContext {
        tick: 1,
        window_width: 960_000,
        window_height: 540_000,
        gamepad_1: TwinStick::new(),
        gamepad_2: TwinStick::new(),
    }
}

fn shot_landing_at(x: i32, y: i32, owner: Shooter) -> Bullet {
    Bullet(Vec2::new(x - 7000, y), Vec2::new(7000, 0), owner)
}

fn boss_at(x: i32, y: i32, health: i32) -> Boss {
    Boss { pos: Vec2::new(x, y), health, heat: 0, charging: false, tx: x }
}

#[test]
fn a_bullet_on_a_wall_is_removed_and_throws_four_sparks() {
    let mut data = vec![30u8; 60 * 34];
    data[6 + 6 * 60] = 1;
    let mut game = game_on(data, 0);
    game.bullets = vec![shot_landing_at(102_000, 100_000, Shooter::Player(1))];
    game.update_bullets(&ctx());
    assert!(game.bullets.is_empty());
    let at = Vec2::new(102_000, 100_000);
    assert_eq!(
        game.splatter,
        vec![
            Splatter { pos: at, kind: Splat::Sparks, vel: Vec2::new(-1245, -3724), life: 11 },
            Splatter { pos: at, kind: Splat::Sparks, vel: Vec2::new(-375, -765), life: 14 },
            Splatter { pos: at, kind: Splat::Sparks, vel: Vec2::new(535, 1551), life: 12 },
            Splatter { pos: at, kind: Splat::Sparks, vel: Vec2::new(1944, 1946), life: 10 },
        ]
    );
    assert_eq!(game.player_1.next_score, 0);
    assert!(game.power_ups.is_empty());
}

#[test]
fn a_wall_takes_the_colours_of_an_enemys_bullet() {
    let mut data = vec![30u8; 60 * 34];
    data[6 + 6 * 60] = 56;
    let mut game = game_on(data, 0);
    game.bullets = vec![
        shot_landing_at(102_000, 100_000, Shooter::Enemy(2)),
        shot_landing_at(102_000, 100_000, Shooter::Boss),
    ];
    game.update_bullets(&ctx());
    assert!(game.bullets.is_empty());
    assert_eq!(game.splatter.len(), 8);
    assert!(game.splatter[..4].iter().all(|p| p.kind == Splat::Enemy(2)));
    assert!(game.splatter[4..].iter().all(|p| p.kind == Splat::Sparks));
}

#[test]
fn a_wall_shields_what_stands_on_it() {
    let mut data = vec![30u8; 60 * 34];
    data[6 + 6 * 60] = 1;
    let mut game = game_on(data, 0);
    game.enemies = vec![Enemy { pos: Vec2::new(102_000, 100_000), heading: 0, kind: 0 }];
    game.bullets = vec![shot_landing_at(102_000, 100_000, Shooter::Player(1))];
    game.update_bullets(&ctx());
    assert!(game.bullets.is_empty());
    assert_eq!(game.enemies.len(), 1);
    assert_eq!(game.player_1.next_score, 0);
    assert_eq!(game.splatter.len(), 4);
}

#[test]
fn every_bullet_flies_by_its_velocity() {
    let mut game = open_game(0);
    game.bullets = vec![
        Bullet(Vec2::new(500_000, 500_000), Vec2::new(-4200, 5600), Shooter::Player(1)),
        Bullet(Vec2::new(i32::MAX - 10, 0), Vec2::new(7000, -1), Shooter::Boss),
    ];
    game.update_bullets(&ctx());
    assert_eq!(
        game.bullets,
        vec![
            Bullet(Vec2::new(495_800, 505_600), Vec2::new(-4200, 5600), Shooter::Player(1)),
            Bullet(Vec2::new(i32::MAX, -1), Vec2::new(7000, -1), Shooter::Boss),
        ]
    );
}

#[test]
fn a_bullet_outside_the_window_does_nothing_and_stays() {
    let mut game = game_on(vec![1u8; 60 * 34], 0);
    game.enemies = vec![Enemy { pos: Vec2::new(-5000, 100_000), heading: 0, kind: 0 }];
    let still = Vec2::new(0, 0);
    game.bullets = vec![
        Bullet(Vec2::new(-5000, 100_000), still, Shooter::Player(1)),
        Bullet(Vec2::new(-1, 100_000), still, Shooter::Player(1)),
        Bullet(Vec2::new(960_000, 100_000), still, Shooter::Player(1)),
        Bullet(Vec2::new(100_000, 540_000), still, Shooter::Player(1)),
        Bullet(Vec2::new(100_000, -1), still, Shooter::Player(1)),
        Bullet(Vec2::new(-1000, 100_000), Vec2::new(-7000, 0), Shooter::Enemy(1)),
    ];
    game.update_bullets(&ctx());
    assert_eq!(game.bullets.len(), 6);
    assert_eq!(game.enemies.len(), 1);
    assert!(game.splatter.is_empty());
    for _ in 0..100 {
        game.update_bullets(&ctx());
    }
    assert_eq!(game.bullets.len(), 6);
    assert_eq!(game.bullets[5].0, Vec2::new(-708_000, 100_000));
}

#[test]
fn the_left_and_upper_edge_belong_to_the_window() {
    let mut game = game_on(vec![1u8; 60 * 34], 0);
    let still = Vec2::new(0, 0);
    game.bullets = vec![
        Bullet(Vec2::new(0, 0), still, Shooter::Player(1)),
        Bullet(Vec2::new(959_999, 539_999), still, Shooter::Player(1)),
        Bullet(Vec2::new(0, 540_000), still, Shooter::Player(1)),
    ];
    game.update_bullets(&ctx());
    assert_eq!(game.bullets, vec![Bullet(Vec2::new(0, 540_000), still, Shooter::Player(1))]);
    assert_eq!(game.splatter.len(), 8);
}

#[test]
fn a_players_bullet_kills_the_enemy_it_comes_near() {
    let mut game = open_game(0);
    game.enemies = vec![Enemy { pos: Vec2::new(200_000, 200_000), heading: 0, kind: 1 }];
    game.bullets = vec![shot_landing_at(197_000, 200_000, Shooter::Player(1))];
    game.update_bullets(&ctx());
    assert!(game.bullets.is_empty());
    assert!(game.enemies.is_empty());
    assert_eq!(game.player_1.next_score, 125);
    assert_eq!(game.player_2.next_score, 0);
    assert!(game.power_ups.is_empty());
    assert_eq!(game.splatter.len(), 8);
    let at = Vec2::new(197_000, 200_000);
    assert_eq!(game.splatter[0], Splatter { pos: at, kind: Splat::Enemy(1), vel: Vec2::new(-28, -757), life: 10 });
    assert_eq!(game.splatter[7], Splatter { pos: at, kind: Splat::Enemy(1), vel: Vec2::new(840, -275), life: 13 });
    assert_eq!(game.rng.state, 12174502703256872303);
}

#[test]
fn a_kill_drops_a_power_up_three_times_in_ten() {
    let mut game = open_game(3);
    game.enemies = vec![Enemy { pos: Vec2::new(200_000, 200_000), heading: 0, kind: 1 }];
    game.bullets = vec![shot_landing_at(197_000, 200_000, Shooter::Player(2))];
    game.update_bullets(&ctx());
    assert_eq!(game.player_2.next_score, 125);
    assert_eq!(game.player_1.next_score, 0);
    assert_eq!(game.power_ups, vec![PowerUp { pos: Vec2::new(197_000, 200_000), kind: 1 }]);
    assert_eq!(game.splatter.len(), 8);
    let at = Vec2::new(197_000, 200_000);
    assert_eq!(game.splatter[0], Splatter { pos: at, kind: Splat::Enemy(1), vel: Vec2::new(-3178, -3071), life: 13 });
    assert_eq!(game.splatter[7], Splatter { pos: at, kind: Splat::Enemy(1), vel: Vec2::new(3702, 4005), life: 11 });
    assert_eq!(game.rng.state, 5232475843619967501);
}

#[test]
fn the_reach_of_a_bullet_is_sixteen_units() {
    let mut game = open_game(0);
    game.enemies = vec![
        Enemy { pos: Vec2::new(200_000, 216_000), heading: 0, kind: 0 },
        Enemy { pos: Vec2::new(200_000, 184_001), heading: 0, kind: 2 },
    ];
    game.bullets = vec![shot_landing_at(200_000, 200_000, Shooter::Player(1))];
    game.update_bullets(&ctx());
    assert_eq!(game.enemies, vec![Enemy { pos: Vec2::new(200_000, 216_000), heading: 0, kind: 0 }]);
    assert!(game.splatter.iter().all(|p| p.kind == Splat::Enemy(2)));
}

#[test]
fn the_first_enemy_in_the_list_is_hit_not_the_nearest() {
    let mut game = open_game(0);
    game.enemies = vec![
        Enemy { pos: Vec2::new(300_000, 300_000), heading: 0, kind: 0 },
        Enemy { pos: Vec2::new(200_000, 210_000), heading: 0, kind: 1 },
        Enemy { pos: Vec2::new(200_000, 200_000), heading: 0, kind: 2 },
    ];
    game.bullets = vec![shot_landing_at(200_000, 200_000, Shooter::Player(1))];
    game.update_bullets(&ctx());
    assert_eq!(
        game.enemies,
        vec![
            Enemy { pos: Vec2::new(300_000, 300_000), heading: 0, kind: 0 },
            Enemy { pos: Vec2::new(200_000, 200_000), heading: 0, kind: 2 },
        ]
    );
    assert!(game.splatter.iter().all(|p| p.kind == Splat::Enemy(1)));
}

#[test]
fn two_bullets_on_one_enemy_both_score_and_kill_it_once() {
    let mut game = open_game(0);
    game.enemies = vec![
        Enemy { pos: Vec2::new(200_000, 200_000), heading: 0, kind: 0 },
        Enemy { pos: Vec2::new(400_000, 200_000), heading: 0, kind: 0 },
    ];
    game.bullets = vec![
        shot_landing_at(197_000, 200_000, Shooter::Player(1)),
        shot_landing_at(500_000, 500_000, Shooter::Player(1)),
        shot_landing_at(203_000, 200_000, Shooter::Player(2)),
    ];
    game.update_bullets(&ctx());
    assert_eq!(game.enemies, vec![Enemy { pos: Vec2::new(400_000, 200_000), heading: 0, kind: 0 }]);
    assert_eq!(game.bullets, vec![Bullet(Vec2::new(500_000, 500_000), Vec2::new(7000, 0), Shooter::Player(1))]);
    assert_eq!(game.player_1.next_score, 125);
    assert_eq!(game.player_2.next_score, 125);
    assert_eq!(game.splatter.len(), 16);
}

#[test]
fn any_player_number_but_one_scores_for_player_two() {
    let mut game = open_game(0);
    game.enemies = vec![Enemy { pos: Vec2::new(200_000, 200_000), heading: 0, kind: 0 }];
    game.bullets = vec![shot_landing_at(197_000, 200_000, Shooter::Player(7))];
    game.update_bullets(&ctx());
    assert_eq!(game.player_1.next_score, 0);
    assert_eq!(game.player_2.next_score, 125);
}

#[test]
fn the_last_charge_destroys_the_spawn_point_and_brings_the_boss() {
    let mut game = open_game(0);
    game.bullets = vec![shot_landing_at(480_000, 304_000, Shooter::Player(2))];
    game.update_bullets(&ctx());
    assert!(game.bullets.is_empty());
    assert_eq!(game.spawn_points[0], SpawnPoint { pos: Vec2::new(480_000, 304_000), kind: 3, charges: 0 });
    assert_eq!(game.spawn_points[1], SpawnPoint { pos: Vec2::new(208_000, 368_000), kind: 1, charges: 0 });
    assert_eq!(game.player_2.next_score, 125);
    assert_eq!(game.power_ups, vec![PowerUp { pos: Vec2::new(480_000, 304_000), kind: 1 }]);
    assert_eq!(game.splatter.len(), 24);
    let at = Vec2::new(480_000, 304_000);
    assert_eq!(game.splatter[0], Splatter { pos: at, kind: Splat::Explosion, vel: Vec2::new(-24, -637), life: 25 });
    assert_eq!(game.splatter[15], Splatter { pos: at, kind: Splat::Explosion, vel: Vec2::new(-2892, 1600), life: 25 });
    assert_eq!(game.splatter[16], Splatter { pos: at, kind: Splat::Enemy(0), vel: Vec2::new(2545, -2006), life: 12 });
    assert_eq!(game.splatter[23], Splatter { pos: at, kind: Splat::Enemy(0), vel: Vec2::new(544, -672), life: 11 });
    assert_eq!(
        game.boss,
        Some(Boss {
            pos: Vec2::new(264_000, -55_000),
            health: 80,
            heat: 100_000,
            charging: false,
            tx: 269_500,
        })
    );
    assert_eq!(game.rng.state, 2597300432246213138);
}

#[test]
fn a_spawn_point_with_charges_to_spare_only_loses_one() {
    let mut game = open_game(0);
    game.spawn_points[0].charges = 3;
    game.bullets = vec![shot_landing_at(480_000, 304_000, Shooter::Player(1))];
    game.update_bullets(&ctx());
    assert_eq!(game.spawn_points[0], SpawnPoint { pos: Vec2::new(480_000, 304_000), kind: 0, charges: 2 });
    assert_eq!(game.player_1.next_score, 125);
    assert!(game.power_ups.is_empty());
    assert_eq!(game.splatter.len(), 8);
    assert!(game.splatter.iter().all(|p| p.kind == Splat::Enemy(0)));
    assert!(game.boss.is_none());
}

#[test]
fn two_hits_in_one_tick_take_two_charges() {
    let mut game = open_game(0);
    game.spawn_points[0].charges = 2;
    game.bullets = vec![
        shot_landing_at(480_000, 304_000, Shooter::Player(1)),
        shot_landing_at(481_000, 304_000, Shooter::Player(2)),
    ];
    game.update_bullets(&ctx());
    assert_eq!(game.spawn_points[0], SpawnPoint { pos: Vec2::new(480_000, 304_000), kind: 3, charges: 0 });
    assert_eq!(game.player_1.next_score, 125);
    assert_eq!(game.player_2.next_score, 125);
    assert!(game.power_ups.is_empty());
    assert_eq!(game.splatter.len(), 16);
    assert_eq!(game.boss.map(|b| b.health), Some(80));
}

#[test]
fn the_boss_waits_while_another_spawn_point_has_a_charge() {
    let mut game = open_game(0);
    game.spawn_points[2].charges = 1;
    game.bullets = vec![shot_landing_at(480_000, 304_000, Shooter::Player(1))];
    game.update_bullets(&ctx());
    assert_eq!(game.spawn_points[0].kind, 3);
    assert!(game.boss.is_none());
    game.bullets = vec![shot_landing_at(800_000, 384_000, Shooter::Player(1))];
    game.update_bullets(&ctx());
    assert_eq!(game.spawn_points[2], SpawnPoint { pos: Vec2::new(800_000, 384_000), kind: 3, charges: 0 });
    assert_eq!(game.boss.map(|b| b.health), Some(80));
    assert_eq!(game.player_1.next_score, 250);
}

#[test]
fn a_spent_spawn_point_lets_bullets_through() {
    let mut game = open_game(0);
    game.bullets = vec![shot_landing_at(208_000, 368_000, Shooter::Player(1))];
    game.update_bullets(&ctx());
    assert_eq!(game.bullets.len(), 1);
    assert_eq!(game.player_1.next_score, 0);
    assert!(game.splatter.is_empty());
    assert!(game.boss.is_none());
    assert_eq!(game.spawn_points[1], SpawnPoint { pos: Vec2::new(208_000, 368_000), kind: 1, charges: 0 });
}

#[test]
fn an_enemy_is_hit_before_a_spawn_point() {
    let mut game = open_game(0);
    game.enemies = vec![Enemy { pos: Vec2::new(480_000, 310_000), heading: 0, kind: 2 }];
    game.bullets = vec![shot_landing_at(480_000, 304_000, Shooter::Player(1))];
    game.update_bullets(&ctx());
    assert!(game.enemies.is_empty());
    assert_eq!(game.spawn_points[0].charges, 1);
    assert!(game.boss.is_none());
}

#[test]
fn hitting_the_boss_pays_255_to_player_one_and_250_to_player_two() {
    let mut game = open_game(0);
    game.spawn_points[0] = SpawnPoint { pos: Vec2::new(480_000, 304_000), kind: 3, charges: 0 };
    game.boss = Some(boss_at(300_000, 205_000, 80));
    game.bullets = vec![
        shot_landing_at(300_000, 236_000, Shooter::Player(1)),
        shot_landing_at(331_999, 205_000, Shooter::Player(2)),
        shot_landing_at(332_000, 205_000, Shooter::Player(2)),
    ];
    game.update_bullets(&ctx());
    assert_eq!(game.player_1.next_score, 255);
    assert_eq!(game.player_2.next_score, 250);
    assert_eq!(game.boss, Some(boss_at(300_000, 205_000, 78)));
    assert_eq!(game.bullets.len(), 1);
    assert_eq!(game.splatter.len(), 32);
    assert!(game.splatter[..8].iter().all(|p| p.kind == Splat::Enemy(0)));
    assert!(game.splatter[8..16].iter().all(|p| p.kind == Splat::Blood));
}

#[test]
fn the_boss_leaves_when_its_health_falls_below_one() {
    let mut game = open_game(0);
    game.boss = Some(boss_at(300_000, 205_000, 2));
    game.bullets = vec![
        shot_landing_at(300_000, 205_000, Shooter::Player(1)),
        shot_landing_at(301_000, 205_000, Shooter::Player(1)),
    ];
    game.update_bullets(&ctx());
    assert!(game.boss.is_none());
    assert_eq!(game.player_1.next_score, 510);
    let mut other = open_game(0);
    other.boss = Some(boss_at(300_000, 205_000, 2));
    other.bullets = vec![shot_landing_at(300_000, 205_000, Shooter::Player(1))];
    other.update_bullets(&ctx());
    assert_eq!(other.boss, Some(boss_at(300_000, 205_000, 1)));
}

#[test]
fn an_enemy_is_hit_before_the_boss() {
    let mut game = open_game(0);
    game.boss = Some(boss_at(300_000, 205_000, 80));
    game.enemies = vec![Enemy { pos: Vec2::new(300_000, 210_000), heading: 0, kind: 1 }];
    game.bullets = vec![shot_landing_at(300_000, 205_000, Shooter::Player(1))];
    game.update_bullets(&ctx());
    assert!(game.enemies.is_empty());
    assert_eq!(game.player_1.next_score, 125);
    assert_eq!(game.boss, Some(boss_at(300_000, 205_000, 80)));
}

#[test]
fn an_enemys_bullet_takes_one_health_from_each_player_near_it() {
    let mut game = open_game(0);
    game.player_1.pos = Vec2::new(100_000, 100_000);
    game.player_2.pos = Vec2::new(110_000, 100_000);
    game.bullets = vec![shot_landing_at(105_000, 100_000, Shooter::Enemy(2))];
    game.update_bullets(&ctx());
    assert_eq!(game.player_1.health, 14);
    assert_eq!(game.player_2.health, 14);
    assert!(game.bullets.is_empty());
    assert_eq!(game.splatter.len(), 16);
    assert!(game.splatter[..8].iter().all(|p| p.kind == Splat::Blood));
    assert!(game.splatter[8..].iter().all(|p| p.kind == Splat::Enemy(2)));
    assert!(game.splatter.iter().all(|p| p.pos == Vec2::new(105_000, 100_000)));
}

#[test]
fn an_enemys_bullet_hits_only_the_player_near_it() {
    let mut game = open_game(0);
    game.bullets = vec![shot_landing_at(170_000, 95_000, Shooter::Enemy(0))];
    game.update_bullets(&ctx());
    assert_eq!(game.player_1.health, 15);
    assert_eq!(game.player_2.health, 14);
    assert!(game.bullets.is_empty());
}

#[test]
fn the_bosss_bullet_takes_three_health() {
    let mut game = open_game(0);
    game.player_1.health = 2;
    game.bullets = vec![shot_landing_at(100_000, 100_000, Shooter::Boss)];
    game.update_bullets(&ctx());
    assert_eq!(game.player_1.health, -1);
    assert_eq!(game.player_2.health, 15);
    assert!(game.bullets.is_empty());
    assert_eq!(game.splatter.len(), 8);
    assert!(game.splatter.iter().all(|p| p.kind == Splat::Enemy(0)));
}

#[test]
fn hostile_bullets_pass_enemies_and_players_bullets_pass_players() {
    let mut game = open_game(0);
    game.enemies = vec![Enemy { pos: Vec2::new(200_000, 200_000), heading: 0, kind: 0 }];
    game.bullets = vec![
        shot_landing_at(200_000, 200_000, Shooter::Enemy(0)),
        shot_landing_at(200_000, 200_000, Shooter::Boss),
        shot_landing_at(100_000, 100_000, Shooter::Player(2)),
    ];
    game.update_bullets(&ctx());
    assert_eq!(game.bullets.len(), 3);
    assert_eq!(game.enemies.len(), 1);
    assert_eq!(game.player_1.health, 15);
    assert!(game.splatter.is_empty());
}

#[test]
fn scores_and_health_saturate() {
    let mut game = open_game(0);
    game.player_1.next_score = i32::MAX - 100;
    game.player_2.health = i32::MIN + 1;
    game.enemies = vec![Enemy { pos: Vec2::new(200_000, 200_000), heading: 0, kind: 0 }];
    game.bullets = vec![
        shot_landing_at(200_000, 200_000, Shooter::Player(1)),
        shot_landing_at(170_000, 90_000, Shooter::Boss),
    ];
    game.update_bullets(&ctx());
    assert_eq!(game.player_1.next_score, i32::MAX);
    assert_eq!(game.player_2.health, i32::MIN);
}

#[test]
fn sweep_keeps_the_unmarked_in_order() {
    assert_eq!(sweep(&vec![1, 2, 3, 4, 5], &vec![false, true, false, true, false]), vec![1, 3, 5]);
    assert_eq!(sweep(&vec![1, 2, 3], &vec![true]), vec![2, 3]);
    assert_eq!(sweep(&vec![1, 2], &vec![false, false, true]), vec![1, 2]);
    assert_eq!(sweep(&Vec::<u8>::new(), &vec![true]), Vec::<u8>::new());
}
