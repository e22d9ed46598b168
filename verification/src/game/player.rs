//! The players: walking, wading, aiming and firing.

use crate::engine::gamepad::TwinStick;
use crate::engine::math::{saturate, saturated, Vec2};
use crate::engine::rng::{advance, nth_roll, Rng};
use crate::engine::tiled::TileMap;
use crate::game::splatter::{after_burst, burst};
use crate::game::terrain::{get_tile_at, is_wall_tile, is_water_tile, tile_at, wall_tile, water_tile};
use crate::game::{Bullet, MyGame, Player, Shooter, Splat, Splatter};
use vstd::prelude::*;

verus! {

/// The health that a player starts with.
pub const START_HEALTH: i32 = 15;

/// The ammunition that a player starts with.
pub const START_AMMO: i32 = 250;

/// The heat that one shot adds to the weapon.
pub const SHOT_HEAT: i32 = 10000;

/// The heat that the weapon loses in a tick.
pub const COOLING: i32 = 1000;

/// The speed of a player's bullet, as a fixed-point factor.
pub const BULLET_SPEED: i32 = 7000;

/// The tile that decides whether a player may take the step that the
/// stick asks for: the tile under the player's feet after the step, two
/// units per tick along the stick and eight units below the position.
pub open spec fn tile_ahead(p: Player, pad: TwinStick, ground: Seq<u8>) -> u8 {
    tile_at(ground, p.pos.x + 2 * pad.move_x_axis, p.pos.y + 2 * pad.move_y_axis + 8000)
}

/// Whether the player takes the step: the tile ahead is no wall and the
/// player is alive.
pub open spec fn steps(p: Player, pad: TwinStick, ground: Seq<u8>) -> bool {
    !wall_tile(tile_ahead(p, pad, ground)) && p.health > 0
}

/// Where the player stands after the tick.
pub open spec fn walked(p: Player, pad: TwinStick, ground: Seq<u8>) -> Vec2 {
    if steps(p, pad, ground) {
        Vec2 {
            x: saturated(p.pos.x + 2 * pad.move_x_axis) as i32,
            y: saturated(p.pos.y + 2 * pad.move_y_axis) as i32,
        }
    } else {
        p.pos
    }
}

/// Whether the player may throw up water: it was moving when the tick
/// began and the tile ahead is water.
pub open spec fn wades(p: Player, pad: TwinStick, ground: Seq<u8>) -> bool {
    p.moving && water_tile(tile_ahead(p, pad, ground))
}

/// Whether the aim stick is pushed far enough to fire: more than a quarter
/// of the way on either axis.
pub open spec fn aimed(pad: TwinStick) -> bool {
    pad.aim_x_axis > 250 || pad.aim_x_axis < -250 || pad.aim_y_axis > 250 || pad.aim_y_axis
        < -250
}

/// Whether the player fires in this tick: the trigger is held, the player
/// is alive, the weapon has cooled below one unit of heat, the stick is
/// aimed, and there is ammunition.
pub open spec fn fires(p: Player, pad: TwinStick) -> bool {
    pad.shoot && p.health > 0 && p.heat < 1000 && aimed(pad) && p.ammo > 0
}

/// Whether the move stick is pushed more than a tenth of the way.
pub open spec fn pushed(pad: TwinStick) -> bool {
    pad.move_x_axis * pad.move_x_axis + pad.move_y_axis * pad.move_y_axis > 100 * 100
}

/// The player after the tick.
pub open spec fn player_after(p: Player, pad: TwinStick, ground: Seq<u8>) -> Player {
    Player {
        number: p.number,
        pos: walked(p, pad, ground),
        aim: Vec2 { x: pad.aim_x_axis, y: pad.aim_y_axis },
        face_left: if pad.move_x_axis < -20 {
            true
        } else if pad.move_x_axis > 20 {
            false
        } else {
            p.face_left
        },
        moving: pushed(pad),
        shooting: pad.shoot,
        heat: if fires(p, pad) {
            (p.heat + 10000) as i32
        } else if p.heat > 0 {
            (p.heat - 1000) as i32
        } else {
            p.heat
        },
        score: p.score,
        next_score: p.next_score,
        health: p.health,
        ammo: if fires(p, pad) {
            (p.ammo - 1) as i32
        } else {
            p.ammo
        },
        next_ammo: p.next_ammo,
    }
}

/// The bullet that the player fires: from where the player stands after
/// the tick, along the aim brought to unit length, at seven units per
/// tick.
pub open spec fn shot(p: Player, pad: TwinStick, ground: Seq<u8>) -> Bullet {
    Bullet(
        walked(p, pad, ground),
        Vec2 { x: pad.aim_x_axis, y: pad.aim_y_axis }.normalized().scaled(7000),
        Shooter::Player(p.number),
    )
}

/// The bullets after a player's tick.
pub open spec fn bullets_after(
    bullets: Seq<Bullet>,
    p: Player,
    pad: TwinStick,
    ground: Seq<u8>,
) -> Seq<Bullet> {
    if fires(p, pad) {
        bullets.push(shot(p, pad, ground))
    } else {
        bullets
    }
}

/// Whether water flies: the player wades and the roll comes up below
/// three in ten.
pub open spec fn splashes(p: Player, pad: TwinStick, ground: Seq<u8>, s: u64) -> bool {
    wades(p, pad, ground) && nth_roll(s, 0) < 300
}

/// The particles after a player's tick: one drop of water where the
/// player stands, if water flies.
pub open spec fn splatter_after(
    splatter: Seq<Splatter>,
    p: Player,
    pad: TwinStick,
    ground: Seq<u8>,
    s: u64,
) -> Seq<Splatter> {
    if splashes(p, pad, ground, s) {
        splatter + burst(advance(s), walked(p, pad, ground), 1, Splat::Water)
    } else {
        splatter
    }
}

/// The generator's state after a player's tick: a wading player takes one
/// roll, and the drop of water its four.
pub open spec fn rng_after(p: Player, pad: TwinStick, ground: Seq<u8>, s: u64) -> u64 {
    if splashes(p, pad, ground, s) {
        after_burst(advance(s), 1)
    } else if wades(p, pad, ground) {
        advance(s)
    } else {
        s
    }
}

impl Player {
    /// A fresh player with this number at `pos`: aiming right, at rest,
    /// weapon cold, no score, full health and ammunition.
    pub fn new(pos: Vec2, number: u8) -> (p: Player)
        ensures
            p == (Player {
                number,
                pos,
                aim: Vec2 { x: 1000, y: 0 },
                face_left: false,
                moving: false,
                shooting: false,
                heat: 0,
                score: 0,
                next_score: 0,
                health: 15,
                ammo: 250,
                next_ammo: 0,
            }),
    {
        Player {
            number,
            pos,
            aim: Vec2::new(1000, 0),
            face_left: false,
            moving: false,
            shooting: false,
            heat: 0,
            score: 0,
            next_score: 0,
            health: START_HEALTH,
            ammo: START_AMMO,
            next_ammo: 0,
        }
    }

    /// One tick of a player: it walks where the stick points unless a wall
    /// is ahead or it is dead, may throw up water, turns and aims with the
    /// sticks, and fires or lets the weapon cool.
    pub fn update(
        &mut self,
        gamepad: &TwinStick,
        bullets: &mut Vec<Bullet>,
        splatter: &mut Vec<Splatter>,
        map: &TileMap,
        rng: &mut Rng,
    )
        requires
            map.playable(),
        ensures
            *final(self) == player_after(*old(self), *gamepad, map.ground()),
            final(bullets)@ == bullets_after(old(bullets)@, *old(self), *gamepad, map.ground()),
            final(splatter)@ == splatter_after(
                old(splatter)@,
                *old(self),
                *gamepad,
                map.ground(),
                old(rng).state,
            ),
            final(rng).state == rng_after(*old(self), *gamepad, map.ground(), old(rng).state),
    {
        let dx: i64 = gamepad.move_x_axis as i64;
        let dy: i64 = gamepad.move_y_axis as i64;
        let ahead_x: i64 = self.pos.x as i64 + 2 * dx;
        let ahead_y: i64 = self.pos.y as i64 + 2 * dy;
        let t = get_tile_at(
            map.layers[0].data.as_slice(),
            saturate(ahead_x),
            saturate(ahead_y + 8000),
        );
        assert(t == tile_ahead(*old(self), *gamepad, map.ground()));
        let is_wall = is_wall_tile(t);
        if !is_wall && self.health > 0 {
            self.pos.x = saturate(ahead_x);
            self.pos.y = saturate(ahead_y);
        }
        if self.moving && is_water_tile(t) {
            let roll = rng.roll();
            if roll < 300 {
                MyGame::add_splatter(splatter, &self.pos, 1, Splat::Water, rng);
            }
        }
        if gamepad.move_x_axis < -20 {
            self.face_left = true;
        } else if gamepad.move_x_axis > 20 {
            self.face_left = false;
        }
        assert(0 <= dx * dx <= 0x4000_0000_0000_0000 && 0 <= dy * dy <= 0x4000_0000_0000_0000)
            by (nonlinear_arith)
            requires
                -0x8000_0000 <= dx <= 0x7fff_ffff,
                -0x8000_0000 <= dy <= 0x7fff_ffff,
        ;
        self.moving = (dx * dx) as u64 + (dy * dy) as u64 > 10000;
        self.aim.x = gamepad.aim_x_axis;
        self.aim.y = gamepad.aim_y_axis;
        self.shooting = gamepad.shoot;
        let can_shoot = self.health > 0 && self.heat < 1000 && (self.aim.x > 250 || self.aim.x
            < -250 || self.aim.y > 250 || self.aim.y < -250);
        if self.shooting && can_shoot && self.ammo > 0 {
            self.heat = self.heat + SHOT_HEAT;
            let mut bullet_velocity = self.aim;
            bullet_velocity.normalize();
            bullet_velocity.scale(BULLET_SPEED);
            bullets.push(Bullet(self.pos, bullet_velocity, Shooter::Player(self.number)));
            self.ammo = self.ammo - 1;
        } else if self.heat > 0 {
            self.heat = self.heat - COOLING;
        }
    }
}

} // verus!
