//! The boss: it comes down, drifts toward a place, charges, and fires a
//! ring of bullets.

use crate::engine::math::{cos_milli, cosine, saturate, saturated, sin_milli, sine, Vec2};
use crate::engine::rng::{advance, roll_of};
use crate::game::{Boss, Bullet, MyGame, Shooter, World};
use vstd::prelude::*;

verus! {

/// The height at which the boss stops coming down.
pub const BOSS_LINE: i32 = 205000;

/// The heat above which a charging boss fires.
pub const BOSS_FUSE: i32 = 25000;

/// The number of bullets in a ring.
pub const RING: usize = 10;

/// Whether the boss is still on its way down.
pub open spec fn entering(b: Boss) -> bool {
    b.pos.y < 205000
}

/// The heat of a boss that is down, one tick on.
pub open spec fn warmed(b: Boss) -> int {
    saturated(b.heat + 1000)
}

/// Whether the boss fires in this tick: it is down, it is charging, and
/// its heat has passed the fuse.
pub open spec fn boss_fires(b: Boss) -> bool {
    !entering(b) && b.charging && warmed(b) > 25000
}

/// The left end of the stretch that the boss patrols.
pub const FIELD_LEFT: i32 = 50000;

/// The right end of the stretch that the boss patrols.
pub const FIELD_RIGHT: i32 = 1141000;

/// The place that a roll picks before it is brought onto the field: up to
/// a hundred units either way from the old one, pushed inward by 50 units
/// if it fell left of the field and by 20 units if it fell right of it.
pub open spec fn nudged(tx: int, roll: int) -> int {
    let t = saturated(tx + 100000 - 200 * roll);
    if t < 50000 {
        t + 50000
    } else if t > 1141000 {
        t - 20000
    } else {
        t
    }
}

/// The place that the boss heads for next: the nudged place where that
/// lies on the field, else the end of the field nearest to it.
pub open spec fn retarget(tx: int, roll: int) -> int {
    let t = nudged(tx, roll);
    if t < 50000 {
        50000
    } else if t > 1141000 {
        1141000
    } else {
        t
    }
}

/// The boss's next place always lies on the field, whatever the old place
/// and the roll.
pub proof fn lemma_target_stays_on_field(tx: int, roll: int)
    ensures
        50000 <= retarget(tx, roll) <= 1141000,
{
}

/// From a place on the field the next place is no more than a hundred
/// units away, and it is the picked place itself wherever that lies on the
/// field.
pub proof fn lemma_target_moves_little(tx: int, roll: int)
    requires
        50000 <= tx <= 1141000,
        0 <= roll < 1000,
    ensures
        tx - 100000 <= retarget(tx, roll) <= tx + 100000,
        50000 <= tx + 100000 - 200 * roll <= 1141000 ==> retarget(tx, roll) == tx + 100000 - 200
            * roll,
{
}

/// The `i`-th bullet of a ring fired from `pos`: five units per tick, a
/// tenth of a turn from its neighbours, the whole ring turned by `offset`.
pub open spec fn ring_bullet(pos: Vec2, offset: int, i: int) -> Bullet {
    let a = offset + (3142 * i) / 5;
    Bullet(pos, Vec2 { x: (5 * cosine(a)) as i32, y: (5 * sine(a)) as i32 }, Shooter::Boss)
}

/// A ring of ten bullets.
pub open spec fn ring(pos: Vec2, offset: int) -> Seq<Bullet> {
    Seq::new(10, |i: int| ring_bullet(pos, offset, i))
}

/// The boss one tick on. `roll` decides the next place of a boss that
/// fires.
pub open spec fn boss_after(b: Boss, roll: int) -> Boss {
    if entering(b) {
        Boss { pos: Vec2 { x: b.pos.x, y: (b.pos.y + 1000) as i32 }, ..b }
    } else if !b.charging {
        if b.pos.x < b.tx - 2000 {
            Boss {
                pos: Vec2 { x: (b.pos.x + 1500) as i32, y: b.pos.y },
                heat: warmed(b) as i32,
                ..b
            }
        } else if b.pos.x > b.tx + 2000 {
            Boss {
                pos: Vec2 { x: (b.pos.x - 1500) as i32, y: b.pos.y },
                heat: warmed(b) as i32,
                ..b
            }
        } else {
            Boss { charging: true, heat: 0, ..b }
        }
    } else if warmed(b) > 25000 {
        Boss { tx: retarget(b.tx as int, roll) as i32, charging: false, heat: 0, ..b }
    } else {
        Boss { heat: warmed(b) as i32, ..b }
    }
}

/// The world after the boss's part of a tick. A boss that fires takes two
/// rolls: one for its next place and one for the turn of the ring.
pub open spec fn boss_phase(w: World) -> World {
    match w.boss {
        Some(b) => {
            let s1 = advance(w.rng);
            let s2 = advance(s1);
            if boss_fires(b) {
                World {
                    boss: Some(boss_after(b, roll_of(s1))),
                    bullets: w.bullets + ring(b.pos, roll_of(s2)),
                    rng: s2,
                    ..w
                }
            } else {
                World { boss: Some(boss_after(b, 0)), ..w }
            }
        },
        None => w,
    }
}

impl MyGame {
    /// Fires a ring of ten bullets from `pos`.
    pub fn fire_ring(bullets: &mut Vec<Bullet>, pos: Vec2, offset: i32)
        requires
            0 <= offset < 1000,
        ensures
            final(bullets)@ == old(bullets)@ + ring(pos, offset as int),
    {
        let ghost before = bullets@;
        let mut i: usize = 0;
        while i < RING
            invariant
                i <= RING,
                0 <= offset < 1000,
                bullets@.len() == before.len() + i,
                forall|j: int| 0 <= j < before.len() ==> bullets@[j] == before[j],
                forall|j: int|
                    0 <= j < i ==> bullets@[before.len() + j] == ring_bullet(pos, offset as int, j),
            decreases RING - i,
        {
            let a: i32 = offset + (3142 * i as i32) / 5;
            bullets.push(Bullet(pos, Vec2::new(5 * cos_milli(a), 5 * sin_milli(a)), Shooter::Boss));
            i = i + 1;
        }
        assert(bullets@ =~= before + ring(pos, offset as int));
    }

    /// The boss's part of a tick.
    pub fn update_boss(&mut self)
        ensures
            final(self)@ == boss_phase(old(self)@),
            final(self).same_assets(old(self)),
            final(self).spawn_points@ == old(self).spawn_points@,
    {
        let b = match self.boss {
            Some(b) => b,
            None => {
                return ;
            },
        };
        let mut next = b;
        if b.pos.y < BOSS_LINE {
            next.pos.y = b.pos.y + 1000;
        } else {
            next.heat = saturate(b.heat as i64 + 1000);
            if !b.charging {
                if (b.pos.x as i64) < b.tx as i64 - 2000 {
                    next.pos.x = b.pos.x + 1500;
                } else if b.pos.x as i64 > b.tx as i64 + 2000 {
                    next.pos.x = b.pos.x - 1500;
                } else {
                    next.charging = true;
                    next.heat = 0;
                }
            } else if next.heat > BOSS_FUSE {
                let roll = self.rng.roll();
                let picked = saturate(b.tx as i64 + 100000 - 200 * roll as i64);
                let pushed = if picked < FIELD_LEFT {
                    picked + 50000
                } else if picked > FIELD_RIGHT {
                    picked - 20000
                } else {
                    picked
                };
                next.tx = if pushed < FIELD_LEFT {
                    FIELD_LEFT
                } else if pushed > FIELD_RIGHT {
                    FIELD_RIGHT
                } else {
                    pushed
                };
                next.charging = false;
                next.heat = 0;
                let offset = self.rng.roll();
                MyGame::fire_ring(&mut self.bullets, b.pos, offset);
            }
        }
        self.boss = Some(next);
    }
}

} // verus!
