//! The tick: the parts of the update in their fixed order.

use crate::engine::gamepad::TwinStick;
use crate::engine::math::Vec2;
use crate::engine::rng::Rng;
use crate::engine::GameContext;
use crate::game::boss::boss_phase;
use crate::game::bullets::bullets_phase;
use crate::game::enemies::{enemies_phase, spawn_phase};
use crate::game::pickups::pickups_phase;
use crate::game::player::{bullets_after, player_after, rng_after, splatter_after};
use crate::game::scores::scores_phase;
use crate::game::splatter::splatter_aged;
use crate::game::{MyGame, Player, SpawnPoint, World};
use vstd::prelude::*;

verus! {

/// The world after player 1 has had its tick.
pub open spec fn first_player_phase(w: World, pad: TwinStick, ground: Seq<u8>) -> World {
    World {
        player_1: player_after(w.player_1, pad, ground),
        bullets: bullets_after(w.bullets, w.player_1, pad, ground),
        splatter: splatter_after(w.splatter, w.player_1, pad, ground, w.rng),
        rng: rng_after(w.player_1, pad, ground, w.rng),
        ..w
    }
}

/// The world after player 2 has had its tick.
pub open spec fn second_player_phase(w: World, pad: TwinStick, ground: Seq<u8>) -> World {
    World {
        player_2: player_after(w.player_2, pad, ground),
        bullets: bullets_after(w.bullets, w.player_2, pad, ground),
        splatter: splatter_after(w.splatter, w.player_2, pad, ground, w.rng),
        rng: rng_after(w.player_2, pad, ground, w.rng),
        ..w
    }
}

/// The world after the particles' part of a tick.
pub open spec fn splatter_phase(w: World) -> World {
    World { splatter: splatter_aged(w.splatter), ..w }
}

/// The world one tick later. The parts run in this order: player 1,
/// player 2, bullets, particles, spawning, enemies, boss, power-ups,
/// scores.
pub open spec fn tick(w: World, ctx: GameContext, ground: Seq<u8>) -> World {
    let width = ctx.window_width as int;
    let height = ctx.window_height as int;
    let w1 = first_player_phase(w, ctx.gamepad_1, ground);
    let w2 = second_player_phase(w1, ctx.gamepad_2, ground);
    let w3 = bullets_phase(w2, ground, width, height);
    let w4 = splatter_phase(w3);
    let w5 = spawn_phase(w4);
    let w6 = enemies_phase(w5, ground, width, height);
    let w7 = boss_phase(w6);
    let w8 = pickups_phase(w7);
    scores_phase(w8)
}

/// The world at the start of a game: player 1 and player 2 at their
/// places, four spawn points of which only the first has a charge, and
/// nothing else.
pub open spec fn first_world() -> World {
    World {
        player_1: fresh_player(Vec2 { x: 100000, y: 100000 }, 1),
        player_2: fresh_player(Vec2 { x: 170000, y: 90000 }, 2),
        bullets: Seq::empty(),
        splatter: Seq::empty(),
        spawn_points: seq![
            SpawnPoint { pos: Vec2 { x: 480000, y: 304000 }, kind: 0, charges: 1 },
            SpawnPoint { pos: Vec2 { x: 208000, y: 368000 }, kind: 1, charges: 0 },
            SpawnPoint { pos: Vec2 { x: 800000, y: 384000 }, kind: 2, charges: 0 },
            SpawnPoint { pos: Vec2 { x: 288000, y: 128000 }, kind: 2, charges: 0 },
        ],
        enemies: Seq::empty(),
        boss: None,
        power_ups: Seq::empty(),
        rng: 0,
    }
}

/// A player as a new game makes it.
pub open spec fn fresh_player(pos: Vec2, number: u8) -> Player {
    Player {
        number,
        pos,
        aim: Vec2 { x: 1000, y: 0 },
        face_left: false,
        moving: false,
        shooting: false,
        heat: 0,
        score: 0,
        next_score: 0,
        health: 15,
        ammo: 250,
        next_ammo: 0,
    }
}

impl MyGame {
    /// A new game, with nothing loaded yet and the generator at seed 0.
    pub fn new() -> (game: Self)
        ensures
            game@ == first_world(),
            game.sprites is None,
            game.numbers is None,
            game.map is None,
    {
        let mut spawn_points: Vec<SpawnPoint> = Vec::new();
        spawn_points.push(SpawnPoint { pos: Vec2::new(480000, 304000), kind: 0, charges: 1 });
        spawn_points.push(SpawnPoint { pos: Vec2::new(208000, 368000), kind: 1, charges: 0 });
        spawn_points.push(SpawnPoint { pos: Vec2::new(800000, 384000), kind: 2, charges: 0 });
        spawn_points.push(SpawnPoint { pos: Vec2::new(288000, 128000), kind: 2, charges: 0 });
        let game = MyGame {
            player_1: Player::new(Vec2::new(100000, 100000), 1),
            player_2: Player::new(Vec2::new(170000, 90000), 2),
            sprites: None,
            numbers: None,
            map: None,
            bullets: Vec::new(),
            splatter: Vec::new(),
            spawn_points,
            enemies: Vec::new(),
            boss: None,
            power_ups: Vec::new(),
            rng: Rng::new(0),
        };
        assert(game@.spawn_points =~= first_world().spawn_points);
        game
    }

    /// Tells whether the game can be advanced: the map is loaded and has a
    /// ground layer, and the four spawn points are there.
    pub fn is_ready(&self) -> (ok: bool)
        ensures
            ok == self.ready(),
    {
        match &self.map {
            Some(map) => map.is_playable() && self.spawn_points.len() == 4,
            None => false,
        }
    }

    /// Starts the generator anew from `seed`.
    pub fn reseed(&mut self, seed: u64)
        ensures
            final(self)@ == (World { rng: seed, ..old(self)@ }),
            final(self).same_assets(old(self)),
    {
        self.rng = Rng::new(seed);
    }

    /// Advances the game by one tick.
    pub fn update(&mut self, ctx: &GameContext)
        requires
            old(self).ready(),
        ensures
            final(self)@ == tick(old(self)@, *ctx, old(self).ground()),
            final(self).same_assets(old(self)),
            final(self).ready(),
    {
        match &self.map {
            Some(map) => {
                self.player_1.update(
                    &ctx.gamepad_1,
                    &mut self.bullets,
                    &mut self.splatter,
                    map,
                    &mut self.rng,
                );
                self.player_2.update(
                    &ctx.gamepad_2,
                    &mut self.bullets,
                    &mut self.splatter,
                    map,
                    &mut self.rng,
                );
            },
            None => {},
        }
        self.update_bullets(ctx);
        self.update_splatter();
        self.spawn_enemies();
        self.update_enemies(ctx);
        self.update_boss();
        self.update_power_ups();
        self.update_scores();
    }
}

} // verus!
