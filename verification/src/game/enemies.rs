//! Enemies: where they come from, how they wander, and when they fire.

use crate::engine::math::{
    cos_milli, cosine, saturate, saturated, sin_milli, sine, Vec2,
};
use crate::engine::rng::{advance, roll_of};
use crate::engine::GameContext;
use crate::game::terrain::{get_tile_at, is_wall_tile, tile_at, wall_tile};
use crate::game::{Bullet, Enemy, MyGame, Shooter, World};
use vstd::prelude::*;

verus! {

/// The heading of a new enemy that a roll decides: up to half a turn.
pub open spec fn first_heading(roll: int) -> int {
    (roll * 3142) / 1000
}

/// The world after the spawning part of a tick. One roll decides whether
/// an enemy is due, with two chances in a hundred; none is due while the
/// boss is there. A second roll picks one of the four spawn points; only a
/// point with a charge left produces the enemy, whose heading a third roll
/// decides.
pub open spec fn spawn_phase(w: World) -> World {
    let s1 = advance(w.rng);
    if roll_of(s1) < 20 && w.boss is None {
        let s2 = advance(s1);
        let p = w.spawn_points[roll_of(s2) / 250];
        if p.charges > 0 {
            let s3 = advance(s2);
            World {
                enemies: w.enemies.push(
                    Enemy { pos: p.pos, heading: first_heading(roll_of(s3)) as i32, kind: p.kind },
                ),
                rng: s3,
                ..w
            }
        } else {
            World { rng: s2, ..w }
        }
    } else {
        World { rng: s1, ..w }
    }
}

/// The step that an enemy with this heading takes in a tick: one unit
/// along the heading.
pub open spec fn stride(heading: int) -> Vec2 {
    Vec2 { x: cosine(heading) as i32, y: sine(heading) as i32 }
}

/// Where an enemy stands after the tick: one stride on, unless the tile
/// under its feet there, eight units below, is a wall.
pub open spec fn enemy_moved(e: Enemy, ground: Seq<u8>) -> Vec2 {
    let d = stride(e.heading as int);
    if wall_tile(tile_at(ground, e.pos.x + d.x, e.pos.y + d.y + 8000)) {
        e.pos
    } else {
        e.pos.plus(d)
    }
}

/// The bullet that an enemy at `pos` fires at `target`, at seven units
/// per tick.
pub open spec fn enemy_shot(pos: Vec2, target: Vec2, kind: u8) -> Bullet {
    Bullet(pos, target.minus(pos).normalized().scaled(7000), Shooter::Enemy(kind))
}

/// The change of heading that a roll decides: up to a quarter of a radian
/// either way.
pub open spec fn swerve(roll: int) -> int {
    roll / 2 - 250
}

/// The enemies looked at so far in a tick, the bullets, and the
/// generator's state.
#[verifier::ext_equal]
pub struct Herd {
    pub enemies: Seq<Enemy>,
    pub bullets: Seq<Bullet>,
    pub rng: u64,
}

/// One enemy's tick. It moves; a roll decides, with one chance in a
/// hundred, whether it fires, and if so a second roll picks the player it
/// fires at; a last roll changes its heading. An enemy that stands exactly
/// on its target has no direction to fire in and fires nothing.
pub open spec fn enemy_step(ground: Seq<u8>, pos_1: Vec2, pos_2: Vec2, h: Herd, e: Enemy) -> Herd {
    let pos = enemy_moved(e, ground);
    let s1 = advance(h.rng);
    let fire = roll_of(s1) < 10;
    let s2 = if fire {
        advance(s1)
    } else {
        s1
    };
    let target = if roll_of(s2) < 500 {
        pos_1
    } else {
        pos_2
    };
    let s3 = advance(s2);
    Herd {
        enemies: h.enemies.push(
            Enemy {
                pos,
                heading: saturated(e.heading + swerve(roll_of(s3))) as i32,
                kind: e.kind,
            },
        ),
        bullets: if fire && target.minus(pos) != (Vec2 { x: 0, y: 0 }) {
            h.bullets.push(enemy_shot(pos, target, e.kind))
        } else {
            h.bullets
        },
        rng: s3,
    }
}

/// The herd after all of `enemies` have had their tick, first to last.
pub open spec fn herd_after(
    ground: Seq<u8>,
    pos_1: Vec2,
    pos_2: Vec2,
    h: Herd,
    enemies: Seq<Enemy>,
) -> Herd
    decreases enemies.len(),
{
    if enemies.len() == 0 {
        h
    } else {
        enemy_step(
            ground,
            pos_1,
            pos_2,
            herd_after(ground, pos_1, pos_2, h, enemies.drop_last()),
            enemies.last(),
        )
    }
}

/// Whether an enemy at this place is still in play: strictly inside the
/// window.
pub open spec fn in_play(pos: Vec2, width: int, height: int) -> bool {
    0 < pos.x && pos.x < width && 0 < pos.y && pos.y < height
}

/// The world after the enemies' part of a tick: every enemy has had its
/// tick, and those that are no longer in play are gone.
pub open spec fn enemies_phase(w: World, ground: Seq<u8>, width: int, height: int) -> World {
    let h = herd_after(
        ground,
        w.player_1.pos,
        w.player_2.pos,
        Herd { enemies: Seq::empty(), bullets: w.bullets, rng: w.rng },
        w.enemies,
    );
    World {
        enemies: h.enemies.filter(|e: Enemy| in_play(e.pos, width, height)),
        bullets: h.bullets,
        rng: h.rng,
        ..w
    }
}

impl MyGame {
    /// The spawning part of a tick.
    pub fn spawn_enemies(&mut self)
        requires
            old(self).spawn_points@.len() == 4,
        ensures
            final(self)@ == spawn_phase(old(self)@),
            final(self).same_assets(old(self)),
            final(self).spawn_points@ == old(self).spawn_points@,
    {
        let no_boss = self.boss.is_none();
        let due = self.rng.roll();
        if due < 20 && no_boss {
            let idx = (self.rng.roll() / 250) as usize;
            let p = self.spawn_points[idx];
            if p.charges > 0 {
                let heading = (self.rng.roll() * 3142) / 1000;
                self.enemies.push(Enemy { pos: Vec2::new(p.pos.x, p.pos.y), heading, kind: p.kind });
            }
        }
    }

    /// The enemies' part of a tick.
    pub fn update_enemies(&mut self, ctx: &GameContext)
        requires
            old(self).ready(),
        ensures
            final(self)@ == enemies_phase(
                old(self)@,
                old(self).ground(),
                ctx.window_width as int,
                ctx.window_height as int,
            ),
            final(self).same_assets(old(self)),
            final(self).ready(),
    {
        let ghost w = self@;
        let ghost ground = self.ground();
        let ghost start = Herd { enemies: Seq::empty(), bullets: w.bullets, rng: w.rng };
        let ghost staying = |e: Enemy| in_play(e.pos, ctx.window_width as int, ctx.window_height as int);
        let ghost mut herd = start;
        let pos_1 = self.player_1.pos;
        let pos_2 = self.player_2.pos;
        let mut kept: Vec<Enemy> = Vec::new();
        let n = self.enemies.len();
        let mut i: usize = 0;
        proof {
            reveal(Seq::filter);
            assert(w.enemies.take(0) =~= Seq::<Enemy>::empty());
        }
        while i < n
            invariant
                i <= n,
                n == w.enemies.len(),
                self.ready(),
                self.ground() == ground,
                self.same_assets(old(self)),
                pos_1 == w.player_1.pos,
                pos_2 == w.player_2.pos,
                staying == (|e: Enemy|
                    in_play(e.pos, ctx.window_width as int, ctx.window_height as int)),
                herd == herd_after(ground, pos_1, pos_2, start, w.enemies.take(i as int)),
                kept@ == herd.enemies.filter(staying),
                self@ == (World { bullets: herd.bullets, rng: herd.rng, ..w }),
            decreases n - i,
        {
            let e = self.enemies[i];
            let dx = cos_milli(e.heading);
            let dy = sin_milli(e.heading);
            let t = match &self.map {
                Some(map) => get_tile_at(
                    map.layers[0].data.as_slice(),
                    saturate(e.pos.x as i64 + dx as i64),
                    saturate(e.pos.y as i64 + dy as i64 + 8000),
                ),
                None => 0,
            };
            let mut pos = e.pos;
            if !is_wall_tile(t) {
                pos.add(&Vec2::new(dx, dy));
            }
            assert(pos == enemy_moved(e, ground));
            if self.rng.roll() < 10 {
                let target = if self.rng.roll() < 500 {
                    pos_1
                } else {
                    pos_2
                };
                let mut bullet_velocity = Vec2::new(
                    saturate(target.x as i64 - pos.x as i64),
                    saturate(target.y as i64 - pos.y as i64),
                );
                if bullet_velocity.x != 0 || bullet_velocity.y != 0 {
                    bullet_velocity.normalize();
                    bullet_velocity.scale(7000);
                    self.bullets.push(Bullet(pos, bullet_velocity, Shooter::Enemy(e.kind)));
                }
            }
            let turn = self.rng.roll() / 2 - 250;
            let next = Enemy { pos, heading: saturate(e.heading as i64 + turn as i64), kind: e.kind };
            proof {
                reveal(Seq::filter);
                assert(w.enemies.take(i + 1).drop_last() =~= w.enemies.take(i as int));
                assert(w.enemies.take(i + 1).last() == e);
                let ghost before = herd;
                herd = enemy_step(ground, pos_1, pos_2, herd, e);
                assert(herd.enemies == before.enemies.push(next));
                assert(herd.enemies.drop_last() =~= before.enemies);
            }
            if pos.x > 0 && pos.x < ctx.window_width && pos.y > 0 && pos.y < ctx.window_height {
                kept.push(next);
            }
            i = i + 1;
        }
        assert(w.enemies.take(n as int) =~= w.enemies);
        self.enemies = kept;
    }
}

} // verus!
