//! Power-ups: who picks them up and what they give.

use crate::engine::math::{distance, saturate, saturated, vec2_distance, Vec2};
use crate::game::bullets::NEAR;
use crate::game::{MyGame, Player, PowerUp, World};
use vstd::prelude::*;

verus! {

/// The kind of a power-up that gives ammunition.
pub const AMMO_KIND: i8 = 0;

/// The kind of a power-up that gives health.
pub const HEALTH_KIND: i8 = 1;

/// What one ammunition power-up gives.
pub const AMMO_GAIN: i32 = 25;

/// What one health power-up gives.
pub const HEALTH_GAIN: i32 = 5;

/// Whether a player at `pos` reaches the power-up.
pub open spec fn reaches(pos: Vec2, u: PowerUp) -> bool {
    distance(u.pos, pos) < 16000
}

/// The number of power-ups of a kind that a player at `pos` reaches.
pub open spec fn picked(power_ups: Seq<PowerUp>, pos: Vec2, kind: i8) -> int {
    power_ups.filter(|u: PowerUp| reaches(pos, u) && u.kind == kind).len() as int
}

/// The power-ups that neither player reaches.
pub open spec fn left_lying(power_ups: Seq<PowerUp>, pos_1: Vec2, pos_2: Vec2) -> Seq<PowerUp> {
    power_ups.filter(|u: PowerUp| !(reaches(pos_1, u) || reaches(pos_2, u)))
}

/// A player after picking up what it reaches: 25 rounds for each
/// ammunition power-up and 5 health for each health power-up.
pub open spec fn player_supplied(p: Player, power_ups: Seq<PowerUp>) -> Player {
    Player {
        ammo: saturated(p.ammo + 25 * picked(power_ups, p.pos, AMMO_KIND)) as i32,
        health: saturated(p.health + 5 * picked(power_ups, p.pos, HEALTH_KIND)) as i32,
        ..p
    }
}

/// The world after the power-ups' part of a tick. A power-up that both
/// players reach is credited to both.
pub open spec fn pickups_phase(w: World) -> World {
    World {
        player_1: player_supplied(w.player_1, w.power_ups),
        player_2: player_supplied(w.player_2, w.power_ups),
        power_ups: left_lying(w.power_ups, w.player_1.pos, w.player_2.pos),
        ..w
    }
}

impl MyGame {
    /// The power-ups' part of a tick: every power-up that a player reaches
    /// is credited to that player and leaves the ground.
    pub fn update_power_ups(&mut self)
        ensures
            final(self)@ == pickups_phase(old(self)@),
            final(self).same_assets(old(self)),
    {
        let ghost all = self.power_ups@;
        let pos_1 = self.player_1.pos;
        let pos_2 = self.player_2.pos;
        let ghost ammo_1 = |u: PowerUp| reaches(pos_1, u) && u.kind == AMMO_KIND;
        let ghost ammo_2 = |u: PowerUp| reaches(pos_2, u) && u.kind == AMMO_KIND;
        let ghost health_1 = |u: PowerUp| reaches(pos_1, u) && u.kind == HEALTH_KIND;
        let ghost health_2 = |u: PowerUp| reaches(pos_2, u) && u.kind == HEALTH_KIND;
        let ghost lying = |u: PowerUp| !(reaches(pos_1, u) || reaches(pos_2, u));
        let ghost one = self.player_1;
        let ghost two = self.player_2;
        let mut left: Vec<PowerUp> = Vec::new();
        let n = self.power_ups.len();
        let mut i: usize = 0;
        proof {
            reveal(Seq::filter);
            assert(all.take(0) =~= Seq::<PowerUp>::empty());
        }
        while i < n
            invariant
                i <= n,
                n == all.len(),
                self.power_ups@ == all,
                ammo_1 == (|u: PowerUp| reaches(pos_1, u) && u.kind == AMMO_KIND),
                ammo_2 == (|u: PowerUp| reaches(pos_2, u) && u.kind == AMMO_KIND),
                health_1 == (|u: PowerUp| reaches(pos_1, u) && u.kind == HEALTH_KIND),
                health_2 == (|u: PowerUp| reaches(pos_2, u) && u.kind == HEALTH_KIND),
                lying == (|u: PowerUp| !(reaches(pos_1, u) || reaches(pos_2, u))),
                left@ == all.take(i as int).filter(lying),
                self.player_1 == (Player {
                    ammo: saturated(one.ammo + 25 * all.take(i as int).filter(ammo_1).len()) as i32,
                    health: saturated(one.health + 5 * all.take(i as int).filter(health_1).len()) as i32,
                    ..one
                }),
                self.player_2 == (Player {
                    ammo: saturated(two.ammo + 25 * all.take(i as int).filter(ammo_2).len()) as i32,
                    health: saturated(two.health + 5 * all.take(i as int).filter(health_2).len()) as i32,
                    ..two
                }),
                self@ == (World {
                    player_1: self.player_1,
                    player_2: self.player_2,
                    ..old(self)@
                }),
                self.same_assets(old(self)),
            decreases n - i,
        {
            let u = self.power_ups[i];
            proof {
                reveal(Seq::filter);
                assert(all.take(i + 1).drop_last() =~= all.take(i as int));
                assert(all.take(i + 1).last() == u);
            }
            let hit_1 = vec2_distance(&u.pos, &pos_1) < NEAR;
            if hit_1 {
                if u.kind == AMMO_KIND {
                    self.player_1.ammo = saturate(self.player_1.ammo as i64 + AMMO_GAIN as i64);
                } else if u.kind == HEALTH_KIND {
                    self.player_1.health = saturate(
                        self.player_1.health as i64 + HEALTH_GAIN as i64,
                    );
                }
            }
            let hit_2 = vec2_distance(&u.pos, &pos_2) < NEAR;
            if hit_2 {
                if u.kind == AMMO_KIND {
                    self.player_2.ammo = saturate(self.player_2.ammo as i64 + AMMO_GAIN as i64);
                } else if u.kind == HEALTH_KIND {
                    self.player_2.health = saturate(
                        self.player_2.health as i64 + HEALTH_GAIN as i64,
                    );
                }
            }
            if !(hit_1 || hit_2) {
                left.push(u);
            }
            i = i + 1;
        }
        assert(all.take(n as int) =~= all);
        self.power_ups = left;
    }
}

} // verus!
