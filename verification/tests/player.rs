use twinstick_arena::engine::gamepad::TwinStick;
use twinstick_arena::engine::math::Vec2;
use twinstick_arena::engine::rng::Rng;
use twinstick_arena::engine::tiled::{TileLayer, TileMap};
use twinstick_arena::game::{Bullet, Player, Shooter, Splat, Splatter};

fn map_of(data: Vec<u8>) -> TileMap {
    TileMap { width: 60, height: 34, layers: vec![TileLayer { width: 60, height: 34, data }] }
}

fn open_map() -> TileMap {
    map_of(vec![30u8; 60 * 34])
}

fn pad(move_x: i32, move_y: i32, aim_x: i32, aim_y: i32, shoot: bool) -> TwinStick {
    TwinStick {
        move_x_axis: move_x,
        move_y_axis: move_y,
        aim_x_axis: aim_x,
        aim_y_axis: aim_y,
        shoot,
    }
}

fn tick(p: &mut Player, stick: &TwinStick, map: &TileMap, seed: u64) -> (Vec<Bullet>, Vec<Splatter>, Rng) {
    let mut bullets = Vec::new();
    let mut splatter = Vec::new();
    let mut rng = Rng::new(seed);
    p.update(stick, &mut bullets, &mut splatter, map, &mut rng);
    (bullets, splatter, rng)
}

#[test]
fn a_new_player_is_healthy_armed_and_at_rest() {
    let p = Player::new(Vec2::new(100_000, 100_000), 1);
    assert_eq!(p.number, 1);
    assert_eq!(p.pos, Vec2::new(100_000, 100_000));
    assert_eq!(p.aim, Vec2::new(1000, 0));
    assert!(!p.face_left && !p.moving && !p.shooting);
    assert_eq!(p.heat, 0);
    assert_eq!((p.score, p.next_score), (0, 0));
    assert_eq!(p.health, 15);
    assert_eq!(p.ammo, 250);
    assert_eq!(p.next_ammo, 0);
}

#[test]
fn firing_makes_one_bullet_at_speed_seven_along_the_aim() {
    let mut p = Player::new(Vec2::new(100_000, 100_000), 1);
    let (bullets, splatter, rng) = tick(&mut p, &pad(0, 0, 1000, 0, true), &open_map(), 0);
    assert_eq!(bullets, vec![Bullet(Vec2::new(100_000, 100_000), Vec2::new(7000, 0), Shooter::Player(1))]);
    assert_eq!(p.ammo, 249);
    assert_eq!(p.heat, 10_000);
    assert!(p.shooting);
    assert_eq!(p.aim, Vec2::new(1000, 0));
    assert!(splatter.is_empty());
    assert_eq!(rng.state, 0);
}

#[test]
fn the_bullet_follows_a_slanted_aim() {
    let mut p = Player::new(Vec2::new(50_000, 60_000), 2);
    let (bullets, _, _) = tick(&mut p, &pad(0, 0, 300, -400, true), &open_map(), 0);
    assert_eq!(bullets, vec![Bullet(Vec2::new(50_000, 60_000), Vec2::new(4200, -5600), Shooter::Player(2))]);
    let mut q = Player::new(Vec2::new(0, 0), 1);
    let (bullets, _, _) = tick(&mut q, &pad(0, 0, -1000, 1000, true), &open_map(), 0);
    assert_eq!(bullets[0].1, Vec2::new(-4949, 4949));
}

#[test]
fn the_bullet_starts_where_the_player_has_stepped_to() {
    let mut p = Player::new(Vec2::new(100_000, 100_000), 1);
    let (bullets, _, _) = tick(&mut p, &pad(1000, 500, 0, 1000, true), &open_map(), 0);
    assert_eq!(p.pos, Vec2::new(102_000, 101_000));
    assert_eq!(bullets, vec![Bullet(Vec2::new(102_000, 101_000), Vec2::new(0, 7000), Shooter::Player(1))]);
}

#[test]
fn the_aim_must_pass_a_quarter_on_one_axis() {
    let map = open_map();
    let mut p = Player::new(Vec2::new(0, 0), 1);
    assert!(tick(&mut p, &pad(0, 0, 250, 250, true), &map, 0).0.is_empty());
    assert!(tick(&mut p, &pad(0, 0, 200, -200, true), &map, 0).0.is_empty());
    assert!(tick(&mut p, &pad(0, 0, -250, 0, true), &map, 0).0.is_empty());
    assert_eq!(p.ammo, 250);
    assert_eq!(tick(&mut p, &pad(0, 0, 251, 0, true), &map, 0).0.len(), 1);
    let mut q = Player::new(Vec2::new(0, 0), 1);
    assert_eq!(tick(&mut q, &pad(0, 0, 0, -251, true), &map, 0).0.len(), 1);
}

#[test]
fn no_bullet_without_trigger_ammunition_or_life() {
    let map = open_map();
    let mut idle = Player::new(Vec2::new(0, 0), 1);
    assert!(tick(&mut idle, &pad(0, 0, 1000, 0, false), &map, 0).0.is_empty());
    let mut empty = Player::new(Vec2::new(0, 0), 1);
    empty.ammo = 0;
    assert!(tick(&mut empty, &pad(0, 0, 1000, 0, true), &map, 0).0.is_empty());
    assert_eq!(empty.ammo, 0);
    let mut dead = Player::new(Vec2::new(0, 0), 1);
    dead.health = 0;
    assert!(tick(&mut dead, &pad(0, 0, 1000, 0, true), &map, 0).0.is_empty());
    assert_eq!(dead.ammo, 250);
}

#[test]
fn a_warm_weapon_loses_one_unit_of_heat_a_tick() {
    let map = open_map();
    let mut p = Player::new(Vec2::new(0, 0), 1);
    p.heat = 10_000;
    for expected in [9000, 8000, 7000, 6000, 5000, 4000, 3000, 2000, 1000, 0, 0, 0] {
        tick(&mut p, &pad(0, 0, 0, 0, false), &map, 0);
        assert_eq!(p.heat, expected);
    }
}

#[test]
fn heat_is_not_stopped_at_zero() {
    let map = open_map();
    let mut p = Player::new(Vec2::new(0, 0), 1);
    p.heat = 500;
    tick(&mut p, &pad(0, 0, 0, 0, false), &map, 0);
    assert_eq!(p.heat, -500);
    tick(&mut p, &pad(0, 0, 0, 0, false), &map, 0);
    assert_eq!(p.heat, -500);
}

#[test]
fn a_held_trigger_fires_every_eleventh_tick() {
    let map = open_map();
    let mut p = Player::new(Vec2::new(0, 0), 1);
    let mut fired = Vec::new();
    for t in 1..=34 {
        if !tick(&mut p, &pad(0, 0, 1000, 0, true), &map, 0).0.is_empty() {
            fired.push(t);
        }
    }
    assert_eq!(fired, vec![1, 12, 23, 34]);
    assert_eq!(p.ammo, 246);
}

#[test]
fn a_weapon_below_one_unit_of_heat_fires() {
    let map = open_map();
    let mut p = Player::new(Vec2::new(0, 0), 1);
    p.heat = 999;
    assert_eq!(tick(&mut p, &pad(0, 0, 1000, 0, true), &map, 0).0.len(), 1);
    assert_eq!(p.heat, 10_999);
    let mut q = Player::new(Vec2::new(0, 0), 1);
    q.heat = 1000;
    assert!(tick(&mut q, &pad(0, 0, 1000, 0, true), &map, 0).0.is_empty());
    assert_eq!(q.heat, 0);
}

#[test]
fn the_move_stick_walks_faces_and_sets_the_moving_flag() {
    let map = open_map();
    let mut p = Player::new(Vec2::new(100_000, 100_000), 1);
    tick(&mut p, &pad(-1000, 0, 0, 0, false), &map, 0);
    assert_eq!(p.pos, Vec2::new(98_000, 100_000));
    assert!(p.face_left);
    assert!(p.moving);
    tick(&mut p, &pad(10, 0, 0, 0, false), &map, 0);
    assert_eq!(p.pos, Vec2::new(98_020, 100_000));
    assert!(p.face_left);
    assert!(!p.moving);
    tick(&mut p, &pad(21, 0, 0, 0, false), &map, 0);
    assert!(!p.face_left);
    tick(&mut p, &pad(-20, 0, 0, 0, false), &map, 0);
    assert!(!p.face_left);
    tick(&mut p, &pad(-21, 0, 0, 0, false), &map, 0);
    assert!(p.face_left);
}

#[test]
fn moving_means_a_stick_pushed_more_than_a_tenth() {
    let map = open_map();
    let mut p = Player::new(Vec2::new(100_000, 100_000), 1);
    tick(&mut p, &pad(100, 0, 0, 0, false), &map, 0);
    assert!(!p.moving);
    tick(&mut p, &pad(100, 1, 0, 0, false), &map, 0);
    assert!(p.moving);
    tick(&mut p, &pad(60, -80, 0, 0, false), &map, 0);
    assert!(!p.moving);
    tick(&mut p, &pad(0, -101, 0, 0, false), &map, 0);
    assert!(p.moving);
}

#[test]
fn a_wall_under_the_feet_ahead_stops_the_player() {
    let mut data = vec![30u8; 60 * 34];
    data[6 + 6 * 60] = 1;
    let map = map_of(data);
    let mut p = Player::new(Vec2::new(100_000, 100_000), 1);
    tick(&mut p, &pad(1000, 0, 0, 0, false), &map, 0);
    assert_eq!(p.pos, Vec2::new(100_000, 100_000));
    assert!(p.moving);
    let mut high = Player::new(Vec2::new(100_000, 80_000), 1);
    tick(&mut high, &pad(1000, 0, 0, 0, false), &map, 0);
    assert_eq!(high.pos, Vec2::new(102_000, 80_000));
}

#[test]
fn a_dead_player_stays_where_it_is() {
    let map = open_map();
    let mut p = Player::new(Vec2::new(100_000, 100_000), 1);
    p.health = 0;
    tick(&mut p, &pad(1000, 1000, 0, 0, false), &map, 0);
    assert_eq!(p.pos, Vec2::new(100_000, 100_000));
    assert!(p.moving);
    p.health = -3;
    tick(&mut p, &pad(1000, 1000, 0, 0, false), &map, 0);
    assert_eq!(p.pos, Vec2::new(100_000, 100_000));
    p.health = 1;
    tick(&mut p, &pad(1000, 1000, 0, 0, false), &map, 0);
    assert_eq!(p.pos, Vec2::new(102_000, 102_000));
}

#[test]
fn a_moving_player_in_water_may_throw_up_a_drop() {
    let map = map_of(vec![80u8; 60 * 34]);
    let mut p = Player::new(Vec2::new(100_000, 100_000), 1);
    p.moving = true;
    let (_, splatter, rng) = tick(&mut p, &pad(1000, 0, 0, 0, false), &map, 3);
    assert_eq!(
        splatter,
        vec![Splatter {
            pos: Vec2::new(102_000, 100_000),
            kind: Splat::Water,
            vel: Vec2::new(2767, -1396),
            life: 11,
        }]
    );
    assert_eq!(rng.state, 11420225309123238378);
}

#[test]
fn water_takes_a_roll_and_stays_calm_seven_times_in_ten() {
    let map = map_of(vec![80u8; 60 * 34]);
    let mut p = Player::new(Vec2::new(100_000, 100_000), 1);
    p.moving = true;
    let (_, splatter, rng) = tick(&mut p, &pad(1000, 0, 0, 0, false), &map, 0);
    assert!(splatter.is_empty());
    assert_eq!(rng.state, 1442695040888963407);
}

#[test]
fn a_player_that_was_at_rest_throws_up_no_water() {
    let map = map_of(vec![80u8; 60 * 34]);
    let mut p = Player::new(Vec2::new(100_000, 100_000), 1);
    let (_, splatter, rng) = tick(&mut p, &pad(1000, 0, 0, 0, false), &map, 3);
    assert!(splatter.is_empty());
    assert_eq!(rng.state, 3);
    assert!(p.moving);
}

#[test]
fn bullets_fly_at_seven_units_to_within_a_third_of_a_percent() {
    let map = open_map();
    let mut checked = 0;
    let mut aim_x: i32 = -1000;
    while aim_x <= 1000 {
        let mut aim_y: i32 = -1000;
        while aim_y <= 1000 {
            if aim_x.abs() > 250 || aim_y.abs() > 250 {
                let mut p = Player::new(Vec2::new(0, 0), 1);
                let (bullets, _, _) = tick(&mut p, &pad(0, 0, aim_x, aim_y, true), &map, 0);
                let v = bullets[0].1;
                let speed_sq = v.x as i64 * v.x as i64 + v.y as i64 * v.y as i64;
                assert!(49 * 995_998 < speed_sq && speed_sq <= 49 * 1_000_000, "aim {} {}", aim_x, aim_y);
                assert!(v.x == 0 || v.x.signum() == aim_x.signum());
                assert!(v.y == 0 || v.y.signum() == aim_y.signum());
                checked += 1;
            }
            aim_y += 37;
        }
        aim_x += 41;
    }
    assert!(checked > 2000);
}
