//! The game world and its per-tick update.

pub mod assets;
pub mod boss;
pub mod bullets;
pub mod enemies;
pub mod laws;
pub mod pickups;
pub mod player;
pub mod render;
pub mod scores;
pub mod splatter;
pub mod terrain;
pub mod tick;

use crate::engine::math::Vec2;
use crate::engine::preloader::ImageHandle;
use crate::engine::rng::Rng;
use crate::engine::tiled::TileMap;
use vstd::prelude::*;

verus! {

/// The kind of a spawn point that has been destroyed.
pub const DESTROYED: u8 = 3;

/// What a splatter particle looks like.
#[derive(Clone, Copy, PartialEq, Eq, Structural, Debug)]
pub enum Splat {
    Sparks,
    Blood,
    Enemy(u8),
    Water,
    Explosion,
}

/// Who fired a bullet.
#[derive(Clone, Copy, PartialEq, Eq, Structural, Debug)]
pub enum Shooter {
    Player(u8),
    Enemy(u8),
    Boss,
}

/// A bullet: position, velocity per tick, owner.
#[derive(Clone, Copy, PartialEq, Eq, Structural, Debug)]
pub struct Bullet(pub Vec2, pub Vec2, pub Shooter);

/// A decorative particle that flies for `life` more ticks.
#[derive(Clone, Copy, PartialEq, Eq, Structural, Debug)]
pub struct Splatter {
    pub pos: Vec2,
    pub kind: Splat,
    pub vel: Vec2,
    pub life: i8,
}

/// A place that produces enemies of one kind while it has charges left.
/// With no charge left it is inert; once shot down to no charge its kind
/// is `DESTROYED`.
#[derive(Clone, Copy, PartialEq, Eq, Structural, Debug)]
pub struct SpawnPoint {
    pub pos: Vec2,
    pub kind: u8,
    pub charges: u8,
}

/// An enemy: position, heading in thousandths of a radian, kind.
#[derive(Clone, Copy, PartialEq, Eq, Structural, Debug)]
pub struct Enemy {
    pub pos: Vec2,
    pub heading: i32,
    pub kind: u8,
}

/// A pickup lying on the ground. It gives ammunition if its kind is 0 and
/// health if its kind is 1.
#[derive(Clone, Copy, PartialEq, Eq, Structural, Debug)]
pub struct PowerUp {
    pub pos: Vec2,
    pub kind: i8,
}

/// The boss. `heat` times its attack cycle and `tx` is the horizontal
/// position it is heading for.
#[derive(Clone, Copy, PartialEq, Eq, Structural, Debug)]
pub struct Boss {
    pub pos: Vec2,
    pub health: i32,
    pub heat: i32,
    pub charging: bool,
    pub tx: i32,
}

/// A player. `heat` is the weapon's cooldown as a fixed-point number; the
/// displayed `score` chases `next_score`.
#[derive(Clone, Copy, PartialEq, Eq, Structural, Debug)]
pub struct Player {
    pub number: u8,
    pub pos: Vec2,
    pub aim: Vec2,
    pub face_left: bool,
    pub moving: bool,
    pub shooting: bool,
    pub heat: i32,
    pub score: i32,
    pub next_score: i32,
    pub health: i32,
    pub ammo: i32,
    pub next_ammo: i32,
}

/// The whole game: both players, everything that moves, the map, and the
/// source of chance.
pub struct MyGame {
    pub player_1: Player,
    pub player_2: Player,
    pub sprites: Option<ImageHandle>,
    pub numbers: Option<ImageHandle>,
    pub map: Option<TileMap>,
    pub bullets: Vec<Bullet>,
    pub splatter: Vec<Splatter>,
    pub spawn_points: Vec<SpawnPoint>,
    pub enemies: Vec<Enemy>,
    pub boss: Option<Boss>,
    pub power_ups: Vec<PowerUp>,
    pub rng: Rng,
}

/// The simulated part of the game as a mathematical value: what a tick
/// reads and changes.
#[verifier::ext_equal]
pub struct World {
    pub player_1: Player,
    pub player_2: Player,
    pub bullets: Seq<Bullet>,
    pub splatter: Seq<Splatter>,
    pub spawn_points: Seq<SpawnPoint>,
    pub enemies: Seq<Enemy>,
    pub boss: Option<Boss>,
    pub power_ups: Seq<PowerUp>,
    pub rng: u64,
}

impl View for MyGame {
    type V = World;

    open spec fn view(&self) -> World {
        World {
            player_1: self.player_1,
            player_2: self.player_2,
            bullets: self.bullets@,
            splatter: self.splatter@,
            spawn_points: self.spawn_points@,
            enemies: self.enemies@,
            boss: self.boss,
            power_ups: self.power_ups@,
            rng: self.rng.state,
        }
    }
}

impl MyGame {
    /// The game can be advanced: its map is loaded and has a ground layer,
    /// and it has its four spawn points.
    pub open spec fn ready(&self) -> bool {
        &&& self.map is Some
        &&& self.map->0.playable()
        &&& self.spawn_points@.len() == 4
    }

    /// The tile indices of the ground layer of a game that is ready.
    pub open spec fn ground(&self) -> Seq<u8> {
        self.map->0.ground()
    }

    /// Whether the assets and the map are the same in two games.
    pub open spec fn same_assets(&self, other: &MyGame) -> bool {
        &&& self.map == other.map
        &&& self.sprites == other.sprites
        &&& self.numbers == other.numbers
    }
}

} // verus!
