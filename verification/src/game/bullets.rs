//! Bullets: flight, and what each bullet hits.
//!
//! A tick moves every bullet and then looks at each one in turn. Nothing is
//! removed while the bullets are looked at: what a bullet hits is decided
//! against the enemies, spawn points and boss as the tick found them, and
//! the outcome is gathered in a tally that is applied once at the end.

use crate::engine::math::{distance, saturate, saturated, vec2_distance, Vec2};
use crate::engine::rng::{advance, nth_roll, Rng};
use crate::engine::GameContext;
use crate::game::splatter::{after_burst, burst};
use crate::game::terrain::{get_tile_at, is_wall_tile, tile_at, wall_tile};
use crate::game::{
    Boss, Bullet, Enemy, MyGame, Player, PowerUp, Shooter, Splat, Splatter, SpawnPoint, World,
    DESTROYED,
};
use vstd::prelude::*;

verus! {

/// A bullet hits an enemy, a spawn point or a player closer than this.
pub const NEAR: u32 = 16000;

/// A bullet hits the boss when closer than this.
pub const BOSS_REACH: u32 = 32000;

/// Where the boss arrives: above the playfield.
pub const BOSS_ENTRY_X: i32 = 264000;

/// Where the boss arrives: above the playfield.
pub const BOSS_ENTRY_Y: i32 = -55000;

/// What a tick's bullets are tested against. None of it changes while the
/// bullets are looked at.
pub struct Arena {
    pub ground: Seq<u8>,
    pub width: int,
    pub height: int,
    pub enemies: Seq<Enemy>,
    pub spawn_points: Seq<SpawnPoint>,
    pub boss: Option<Boss>,
    pub pos_1: Vec2,
    pub pos_2: Vec2,
}

/// What the bullets of a tick have done so far.
#[verifier::ext_equal]
pub struct Tally {
    /// The score that player 1 is owed.
    pub score_1: i32,
    /// The score that player 2 is owed.
    pub score_2: i32,
    /// The health of player 1.
    pub health_1: i32,
    /// The health of player 2.
    pub health_2: i32,
    /// The particles thrown during this tick.
    pub splatter: Seq<Splatter>,
    /// The power-ups dropped during this tick.
    pub power_ups: Seq<PowerUp>,
    /// The state of the generator.
    pub rng: u64,
    /// For each bullet looked at, whether it is used up.
    pub spent: Seq<bool>,
    /// For each enemy, whether a bullet has killed it.
    pub slain: Seq<bool>,
    /// The spawn points with this tick's hits taken off.
    pub spawn_points: Seq<SpawnPoint>,
    /// Whether a spawn point lost its last charge during this tick.
    pub destroyed: bool,
    /// The number of bullets that hit the boss.
    pub damage: i32,
}

/// The kind of a power-up that a roll decides: ammunition or health.
pub open spec fn drop_kind(roll: int) -> i8 {
    if roll < 500 {
        0
    } else {
        1
    }
}

/// The score for hitting the boss.
pub open spec fn boss_bounty(number: u8) -> int {
    if number == 1 {
        255
    } else {
        250
    }
}

/// The particles that fly when a bullet hits a wall.
pub open spec fn wall_splat(owner: Shooter) -> Splat {
    match owner {
        Shooter::Enemy(k) => Splat::Enemy(k),
        _ => Splat::Sparks,
    }
}

/// Whether a point lies inside the window: from its left and upper edge
/// up to, but not on, its right and lower edge.
pub open spec fn inside(pos: Vec2, width: int, height: int) -> bool {
    0 <= pos.x && pos.x < width && 0 <= pos.y && pos.y < height
}

/// Whether a spawn point still produces enemies.
pub open spec fn active(p: SpawnPoint) -> bool {
    p.kind != DESTROYED && p.charges > 0
}

/// The index of the first enemy at or after `from` that is near `pos`, or
/// the number of enemies if there is none.
pub open spec fn enemy_near(enemies: Seq<Enemy>, pos: Vec2, from: int) -> int
    decreases enemies.len() - from,
{
    if from < 0 || from >= enemies.len() {
        enemies.len() as int
    } else if distance(enemies[from].pos, pos) < 16000 {
        from
    } else {
        enemy_near(enemies, pos, from + 1)
    }
}

/// The index of the first active spawn point at or after `from` that is
/// near `pos`, or the number of spawn points if there is none.
pub open spec fn spawn_near(points: Seq<SpawnPoint>, pos: Vec2, from: int) -> int
    decreases points.len() - from,
{
    if from < 0 || from >= points.len() {
        points.len() as int
    } else if active(points[from]) && distance(points[from].pos, pos) < 16000 {
        from
    } else {
        spawn_near(points, pos, from + 1)
    }
}

/// Whether any spawn point is active.
pub open spec fn any_active(points: Seq<SpawnPoint>) -> bool {
    exists|i: int| 0 <= i < points.len() && active(#[trigger] points[i])
}

/// A bullet one tick further along its path.
pub open spec fn flown(b: Bullet) -> Bullet {
    Bullet(b.0.plus(b.1), b.1, b.2)
}

/// The items that are not marked as gone, in their old order.
pub open spec fn survivors<T>(items: Seq<T>, gone: Seq<bool>) -> Seq<T>
    decreases items.len(),
{
    if items.len() == 0 {
        items
    } else {
        let rest = survivors(items.drop_last(), gone);
        if items.len() <= gone.len() && gone[items.len() - 1] {
            rest
        } else {
            rest.push(items.last())
        }
    }
}

/// The boss as it arrives: above the playfield, on its way down, heading
/// for a place that a roll decides.
pub open spec fn arrival(roll: int) -> Boss {
    Boss {
        pos: Vec2 { x: BOSS_ENTRY_X, y: BOSS_ENTRY_Y },
        health: 80,
        heat: 100000,
        charging: false,
        tx: (100000 + 300 * roll) as i32,
    }
}

/// The boss after `damage` hits: one health less for each, and gone when
/// no health is left.
pub open spec fn wounded(boss: Option<Boss>, damage: int) -> Option<Boss> {
    match boss {
        Some(b) => if b.health - damage < 1 {
            None
        } else {
            Some(Boss { health: (b.health - damage) as i32, ..b })
        },
        None => None,
    }
}

impl Tally {
    /// The bullet flies on.
    pub open spec fn kept(self) -> Tally {
        Tally { spent: self.spent.push(false), ..self }
    }

    /// The bullet is used up.
    pub open spec fn spend(self) -> Tally {
        Tally { spent: self.spent.push(true), ..self }
    }

    /// The player with this number is owed `points` more; every number but
    /// 1 counts for player 2.
    pub open spec fn credit(self, number: u8, points: int) -> Tally {
        if number == 1 {
            Tally { score_1: saturated(self.score_1 + points) as i32, ..self }
        } else {
            Tally { score_2: saturated(self.score_2 + points) as i32, ..self }
        }
    }

    /// A burst of particles flies from `pos`.
    pub open spec fn splash(self, pos: Vec2, amount: int, kind: Splat) -> Tally {
        Tally {
            splatter: self.splatter + burst(self.rng, pos, amount, kind),
            rng: after_burst(self.rng, amount),
            ..self
        }
    }

    /// A power-up falls at `pos`; a roll decides its kind.
    pub open spec fn drop(self, pos: Vec2) -> Tally {
        Tally {
            power_ups: self.power_ups.push(
                PowerUp { pos, kind: drop_kind(nth_roll(self.rng, 0)) },
            ),
            rng: advance(self.rng),
            ..self
        }
    }

    /// With three chances in ten a power-up falls at `pos`.
    pub open spec fn maybe_drop(self, pos: Vec2) -> Tally {
        let rolled = Tally { rng: advance(self.rng), ..self };
        if nth_roll(self.rng, 0) < 300 {
            rolled.drop(pos)
        } else {
            rolled
        }
    }

    /// Enemy `e` is killed.
    pub open spec fn slay(self, e: int) -> Tally {
        Tally { slain: self.slain.update(e, true), ..self }
    }

    /// Spawn point `s` loses a charge, if it has one left; with its last
    /// charge it is destroyed.
    pub open spec fn strike(self, s: int) -> Tally {
        let p = self.spawn_points[s];
        if p.charges > 1 {
            Tally {
                spawn_points: self.spawn_points.update(
                    s,
                    SpawnPoint { charges: (p.charges - 1) as u8, ..p },
                ),
                ..self
            }
        } else if p.charges == 1 {
            Tally {
                spawn_points: self.spawn_points.update(
                    s,
                    SpawnPoint { kind: DESTROYED, charges: 0, ..p },
                ),
                destroyed: true,
                ..self
            }
        } else {
            self
        }
    }

    /// The boss takes one more hit.
    pub open spec fn wound(self) -> Tally {
        Tally { damage: saturated(self.damage + 1) as i32, ..self }
    }

    /// Each player that was hit loses `amount` health.
    pub open spec fn hurt(self, hit_1: bool, hit_2: bool, amount: int) -> Tally {
        Tally {
            health_1: if hit_1 {
                saturated(self.health_1 - amount) as i32
            } else {
                self.health_1
            },
            health_2: if hit_2 {
                saturated(self.health_2 - amount) as i32
            } else {
                self.health_2
            },
            ..self
        }
    }
}

/// What a player's bullet at `pos` does: it kills the first enemy near
/// it; failing that it strikes the first active spawn point near it;
/// failing that it hits the boss if the boss is in reach; else it flies on.
pub open spec fn player_bullet(a: Arena, t: Tally, pos: Vec2, number: u8) -> Tally {
    let e = enemy_near(a.enemies, pos, 0);
    let s = spawn_near(a.spawn_points, pos, 0);
    if e < a.enemies.len() {
        t.spend().slay(e).credit(number, 125).maybe_drop(pos).splash(
            pos,
            8,
            Splat::Enemy(a.enemies[e].kind),
        )
    } else if s < a.spawn_points.len() {
        let p = a.spawn_points[s];
        let struck = t.spend().strike(s).credit(number, 125);
        let blown = if p.charges < 2 {
            struck.drop(pos).splash(pos, 16, Splat::Explosion)
        } else {
            struck
        };
        blown.splash(pos, 8, Splat::Enemy(p.kind))
    } else if a.boss is Some && distance(pos, a.boss->0.pos) < 32000 {
        t.spend().wound().credit(number, boss_bounty(number)).splash(
            pos,
            8,
            Splat::Enemy(0),
        ).splash(pos, 8, Splat::Blood)
    } else {
        t.kept()
    }
}

/// What a bullet at `pos` that an enemy or the boss fired does: every
/// player near it loses `harm` health, and if any did the bullet is used up
/// in the bursts given by `first` and, where there is one, `second`.
pub open spec fn hostile_bullet(
    a: Arena,
    t: Tally,
    pos: Vec2,
    harm: int,
    first: Splat,
    second: Option<Splat>,
) -> Tally {
    let hit_1 = distance(a.pos_1, pos) < 16000;
    let hit_2 = distance(a.pos_2, pos) < 16000;
    if hit_1 || hit_2 {
        let splashed = t.hurt(hit_1, hit_2, harm).spend().splash(pos, 8, first);
        match second {
            Some(kind) => splashed.splash(pos, 8, kind),
            None => splashed,
        }
    } else {
        t.kept()
    }
}

/// What one bullet does, after it has flown. Outside the window it does
/// nothing. On a wall tile it bursts into four particles. Elsewhere its
/// owner decides what it can hit.
pub open spec fn bullet_effect(a: Arena, t: Tally, b: Bullet) -> Tally {
    if !inside(b.0, a.width, a.height) {
        t.kept()
    } else if wall_tile(tile_at(a.ground, b.0.x as int, b.0.y as int)) {
        t.spend().splash(b.0, 4, wall_splat(b.2))
    } else {
        match b.2 {
            Shooter::Player(number) => player_bullet(a, t, b.0, number),
            Shooter::Enemy(k) => hostile_bullet(
                a,
                t,
                b.0,
                1,
                Splat::Blood,
                Some(Splat::Enemy(k)),
            ),
            Shooter::Boss => hostile_bullet(a, t, b.0, 3, Splat::Enemy(0), None),
        }
    }
}

/// The tally after all of `bullets` have been looked at, first to last.
pub open spec fn tally_after(a: Arena, t: Tally, bullets: Seq<Bullet>) -> Tally
    decreases bullets.len(),
{
    if bullets.len() == 0 {
        t
    } else {
        bullet_effect(a, tally_after(a, t, bullets.drop_last()), bullets.last())
    }
}

/// The tally before any bullet has been looked at.
pub open spec fn opening(w: World) -> Tally {
    Tally {
        score_1: w.player_1.next_score,
        score_2: w.player_2.next_score,
        health_1: w.player_1.health,
        health_2: w.player_2.health,
        splatter: Seq::empty(),
        power_ups: Seq::empty(),
        rng: w.rng,
        spent: Seq::empty(),
        slain: Seq::new(w.enemies.len(), |i: int| false),
        spawn_points: w.spawn_points,
        destroyed: false,
        damage: 0,
    }
}

/// What the bullets of a world are tested against.
pub open spec fn arena_of(w: World, ground: Seq<u8>, width: int, height: int) -> Arena {
    Arena {
        ground,
        width,
        height,
        enemies: w.enemies,
        spawn_points: w.spawn_points,
        boss: w.boss,
        pos_1: w.player_1.pos,
        pos_2: w.player_2.pos,
    }
}

/// Whether the boss arrives: a spawn point was destroyed during this tick,
/// no spawn point is active any more, and there is no boss yet.
pub open spec fn boss_arrives(w: World, t: Tally) -> bool {
    t.destroyed && !any_active(t.spawn_points) && w.boss is None
}

/// The world after the bullets' part of a tick.
pub open spec fn bullets_phase(w: World, ground: Seq<u8>, width: int, height: int) -> World {
    let shots = w.bullets.map_values(|b: Bullet| flown(b));
    let t = tally_after(arena_of(w, ground, width, height), opening(w), shots);
    let arrives = boss_arrives(w, t);
    World {
        player_1: Player { next_score: t.score_1, health: t.health_1, ..w.player_1 },
        player_2: Player { next_score: t.score_2, health: t.health_2, ..w.player_2 },
        bullets: survivors(shots, t.spent),
        splatter: w.splatter + t.splatter,
        spawn_points: t.spawn_points,
        enemies: survivors(w.enemies, t.slain),
        boss: wounded(
            if arrives {
                Some(arrival(nth_roll(t.rng, 0)))
            } else {
                w.boss
            },
            t.damage as int,
        ),
        power_ups: w.power_ups + t.power_ups,
        rng: if arrives {
            advance(t.rng)
        } else {
            t.rng
        },
    }
}

/// The tally as the tick keeps it while it looks at the bullets.
pub struct Pass {
    pub score_1: i32,
    pub score_2: i32,
    pub health_1: i32,
    pub health_2: i32,
    pub splatter: Vec<Splatter>,
    pub power_ups: Vec<PowerUp>,
    pub rng: Rng,
    pub spent: Vec<bool>,
    pub slain: Vec<bool>,
    pub spawn_points: Vec<SpawnPoint>,
    pub destroyed: bool,
    pub damage: i32,
}

impl View for Pass {
    type V = Tally;

    open spec fn view(&self) -> Tally {
        Tally {
            score_1: self.score_1,
            score_2: self.score_2,
            health_1: self.health_1,
            health_2: self.health_2,
            splatter: self.splatter@,
            power_ups: self.power_ups@,
            rng: self.rng.state,
            spent: self.spent@,
            slain: self.slain@,
            spawn_points: self.spawn_points@,
            destroyed: self.destroyed,
            damage: self.damage,
        }
    }
}

impl Pass {
    /// Notes that the bullet flies on.
    pub fn keep(&mut self)
        ensures
            final(self)@ == old(self)@.kept(),
    {
        self.spent.push(false);
    }

    /// Notes that the bullet is used up.
    pub fn spend(&mut self)
        ensures
            final(self)@ == old(self)@.spend(),
    {
        self.spent.push(true);
    }

    /// Credits `points` to the player with this number.
    pub fn credit(&mut self, number: u8, points: i32)
        ensures
            final(self)@ == old(self)@.credit(number, points as int),
    {
        if number == 1 {
            self.score_1 = saturate(self.score_1 as i64 + points as i64);
        } else {
            self.score_2 = saturate(self.score_2 as i64 + points as i64);
        }
    }

    /// Throws a burst of particles from `pos`.
    pub fn splash(&mut self, pos: Vec2, amount: u8, kind: Splat)
        ensures
            final(self)@ == old(self)@.splash(pos, amount as int, kind),
    {
        MyGame::add_splatter(&mut self.splatter, &pos, amount, kind, &mut self.rng);
    }

    /// Drops a power-up at `pos`.
    pub fn drop(&mut self, pos: Vec2)
        ensures
            final(self)@ == old(self)@.drop(pos),
    {
        let roll = self.rng.roll();
        let kind: i8 = if roll < 500 {
            0
        } else {
            1
        };
        self.power_ups.push(PowerUp { pos, kind });
    }

    /// Drops a power-up at `pos` with three chances in ten.
    pub fn maybe_drop(&mut self, pos: Vec2)
        ensures
            final(self)@ == old(self)@.maybe_drop(pos),
    {
        let roll = self.rng.roll();
        if roll < 300 {
            self.drop(pos);
        }
    }

    /// Marks enemy `e` as killed.
    pub fn slay(&mut self, e: usize)
        requires
            e < old(self).slain@.len(),
        ensures
            final(self)@ == old(self)@.slay(e as int),
    {
        self.slain.set(e, true);
    }

    /// Takes a charge off spawn point `s`.
    pub fn strike(&mut self, s: usize)
        requires
            s < old(self).spawn_points@.len(),
        ensures
            final(self)@ == old(self)@.strike(s as int),
    {
        let p = self.spawn_points[s];
        if p.charges > 1 {
            self.spawn_points.set(s, SpawnPoint { pos: p.pos, kind: p.kind, charges: p.charges - 1 });
        } else if p.charges == 1 {
            self.spawn_points.set(s, SpawnPoint { pos: p.pos, kind: DESTROYED, charges: 0 });
            self.destroyed = true;
        }
    }

    /// Counts one more hit on the boss.
    pub fn wound(&mut self)
        ensures
            final(self)@ == old(self)@.wound(),
    {
        self.damage = saturate(self.damage as i64 + 1);
    }

    /// Takes `amount` health from each player that was hit.
    pub fn hurt(&mut self, hit_1: bool, hit_2: bool, amount: i32)
        ensures
            final(self)@ == old(self)@.hurt(hit_1, hit_2, amount as int),
    {
        if hit_1 {
            self.health_1 = saturate(self.health_1 as i64 - amount as i64);
        }
        if hit_2 {
            self.health_2 = saturate(self.health_2 as i64 - amount as i64);
        }
    }
}

/// Copies the items that are not marked as gone.
pub fn sweep<T: Copy>(items: &Vec<T>, gone: &Vec<bool>) -> (left: Vec<T>)
    ensures
        left@ == survivors(items@, gone@),
{
    let mut left: Vec<T> = Vec::new();
    let n = items.len();
    let mut i: usize = 0;
    assert(items@.take(0) =~= Seq::<T>::empty());
    while i < n
        invariant
            i <= n,
            n == items@.len(),
            left@ == survivors(items@.take(i as int), gone@),
        decreases n - i,
    {
        assert(items@.take(i + 1).drop_last() =~= items@.take(i as int));
        if !(i < gone.len() && gone[i]) {
            left.push(items[i]);
        }
        i = i + 1;
    }
    assert(items@.take(n as int) =~= items@);
    left
}

/// Tells whether any spawn point is active.
pub fn has_active(points: &Vec<SpawnPoint>) -> (any: bool)
    ensures
        any == any_active(points@),
{
    let n = points.len();
    let mut i: usize = 0;
    while i < n
        invariant
            i <= n,
            n == points@.len(),
            forall|j: int| 0 <= j < i ==> !active(#[trigger] points@[j]),
        decreases n - i,
    {
        if points[i].kind != DESTROYED && points[i].charges > 0 {
            return true;
        }
        i = i + 1;
    }
    false
}

impl MyGame {
    /// What this game's bullets are tested against.
    pub open spec fn arena(&self, ctx: &GameContext) -> Arena {
        arena_of(self@, self.ground(), ctx.window_width as int, ctx.window_height as int)
    }

    /// Finds the first enemy near `pos`.
    pub fn find_enemy(&self, pos: &Vec2) -> (e: usize)
        ensures
            e == enemy_near(self.enemies@, *pos, 0),
    {
        let n = self.enemies.len();
        let mut j: usize = 0;
        while j < n
            invariant
                j <= n,
                n == self.enemies@.len(),
                enemy_near(self.enemies@, *pos, 0) == enemy_near(self.enemies@, *pos, j as int),
            decreases n - j,
        {
            if vec2_distance(&self.enemies[j].pos, pos) < NEAR {
                return j;
            }
            j = j + 1;
        }
        n
    }

    /// Finds the first active spawn point near `pos`.
    pub fn find_spawn_point(&self, pos: &Vec2) -> (s: usize)
        ensures
            s == spawn_near(self.spawn_points@, *pos, 0),
    {
        let n = self.spawn_points.len();
        let mut j: usize = 0;
        while j < n
            invariant
                j <= n,
                n == self.spawn_points@.len(),
                spawn_near(self.spawn_points@, *pos, 0) == spawn_near(
                    self.spawn_points@,
                    *pos,
                    j as int,
                ),
            decreases n - j,
        {
            let p = self.spawn_points[j];
            if p.kind != DESTROYED && p.charges > 0 && vec2_distance(&p.pos, pos) < NEAR {
                return j;
            }
            j = j + 1;
        }
        n
    }

    /// Decides what a player's bullet at `pos` hits.
    pub fn resolve_player_bullet(&self, ctx: &GameContext, pass: &mut Pass, pos: Vec2, number: u8)
        requires
            self.ready(),
            old(pass).slain@.len() == self.enemies@.len(),
            old(pass).spawn_points@.len() == self.spawn_points@.len(),
        ensures
            final(pass)@ == player_bullet(self.arena(ctx), old(pass)@, pos, number),
            final(pass).slain@.len() == self.enemies@.len(),
            final(pass).spawn_points@.len() == self.spawn_points@.len(),
    {
        let e = self.find_enemy(&pos);
        let s = self.find_spawn_point(&pos);
        if e < self.enemies.len() {
            pass.spend();
            pass.slay(e);
            pass.credit(number, 125);
            pass.maybe_drop(pos);
            pass.splash(pos, 8, Splat::Enemy(self.enemies[e].kind));
        } else if s < self.spawn_points.len() {
            let p = self.spawn_points[s];
            pass.spend();
            pass.strike(s);
            pass.credit(number, 125);
            if p.charges < 2 {
                pass.drop(pos);
                pass.splash(pos, 16, Splat::Explosion);
            }
            pass.splash(pos, 8, Splat::Enemy(p.kind));
        } else {
            let in_reach = match &self.boss {
                Some(boss) => vec2_distance(&pos, &boss.pos) < BOSS_REACH,
                None => false,
            };
            if in_reach {
                pass.spend();
                pass.wound();
                pass.credit(
                    number,
                    if number == 1 {
                        255
                    } else {
                        250
                    },
                );
                pass.splash(pos, 8, Splat::Enemy(0));
                pass.splash(pos, 8, Splat::Blood);
            } else {
                pass.keep();
            }
        }
    }

    /// Decides what a bullet at `pos` that an enemy or the boss fired hits.
    pub fn resolve_hostile_bullet(
        &self,
        ctx: &GameContext,
        pass: &mut Pass,
        pos: Vec2,
        harm: i32,
        first: Splat,
        second: Option<Splat>,
    )
        ensures
            final(pass)@ == hostile_bullet(
                self.arena(ctx),
                old(pass)@,
                pos,
                harm as int,
                first,
                second,
            ),
            final(pass).slain@.len() == old(pass).slain@.len(),
            final(pass).spawn_points@.len() == old(pass).spawn_points@.len(),
    {
        let hit_1 = vec2_distance(&self.player_1.pos, &pos) < NEAR;
        let hit_2 = vec2_distance(&self.player_2.pos, &pos) < NEAR;
        if hit_1 || hit_2 {
            pass.hurt(hit_1, hit_2, harm);
            pass.spend();
            pass.splash(pos, 8, first);
            match second {
                Some(kind) => {
                    pass.splash(pos, 8, kind);
                },
                None => {},
            }
        } else {
            pass.keep();
        }
    }

    /// Decides what one bullet does, after it has flown.
    pub fn resolve_bullet(&self, ctx: &GameContext, pass: &mut Pass, b: Bullet)
        requires
            self.ready(),
            old(pass).slain@.len() == self.enemies@.len(),
            old(pass).spawn_points@.len() == self.spawn_points@.len(),
        ensures
            final(pass)@ == bullet_effect(self.arena(ctx), old(pass)@, b),
            final(pass).slain@.len() == self.enemies@.len(),
            final(pass).spawn_points@.len() == self.spawn_points@.len(),
    {
        let pos = b.0;
        let inside_bounds = pos.x >= 0 && pos.x < ctx.window_width && pos.y >= 0 && pos.y
            < ctx.window_height;
        if !inside_bounds {
            pass.keep();
            return ;
        }
        let t = match &self.map {
            Some(map) => get_tile_at(map.layers[0].data.as_slice(), pos.x, pos.y),
            None => 0,
        };
        if is_wall_tile(t) {
            let kind = match b.2 {
                Shooter::Enemy(k) => Splat::Enemy(k),
                _ => Splat::Sparks,
            };
            pass.spend();
            pass.splash(pos, 4, kind);
        } else {
            match b.2 {
                Shooter::Player(number) => {
                    self.resolve_player_bullet(ctx, pass, pos, number);
                },
                Shooter::Enemy(k) => {
                    self.resolve_hostile_bullet(
                        ctx,
                        pass,
                        pos,
                        1,
                        Splat::Blood,
                        Some(Splat::Enemy(k)),
                    );
                },
                Shooter::Boss => {
                    self.resolve_hostile_bullet(ctx, pass, pos, 3, Splat::Enemy(0), None);
                },
            }
        }
    }
}

impl MyGame {
    /// Moves every bullet one tick along its path.
    pub fn fly_bullets(&mut self)
        ensures
            final(self).bullets@ == old(self).bullets@.map_values(|b: Bullet| flown(b)),
            final(self)@ == (World { bullets: final(self).bullets@, ..old(self)@ }),
            final(self).same_assets(old(self)),
    {
        let ghost before = self.bullets@;
        let n = self.bullets.len();
        let mut i: usize = 0;
        while i < n
            invariant
                i <= n,
                n == before.len(),
                self.bullets@.len() == n,
                forall|j: int| 0 <= j < i ==> self.bullets@[j] == flown(before[j]),
                forall|j: int| i <= j < n ==> self.bullets@[j] == before[j],
                self@ == (World { bullets: self.bullets@, ..old(self)@ }),
                self.same_assets(old(self)),
            decreases n - i,
        {
            let b = self.bullets[i];
            let mut pos = b.0;
            pos.add(&b.1);
            self.bullets.set(i, Bullet(pos, b.1, b.2));
            i = i + 1;
        }
        assert(self.bullets@ =~= before.map_values(|b: Bullet| flown(b)));
    }

    /// Starts the tally of a tick.
    pub fn open_pass(&self) -> (pass: Pass)
        ensures
            pass@ == opening(self@),
    {
        let mut slain: Vec<bool> = Vec::new();
        let n = self.enemies.len();
        let mut i: usize = 0;
        while i < n
            invariant
                i <= n,
                n == self.enemies@.len(),
                slain@.len() == i,
                forall|j: int| 0 <= j < i ==> slain@[j] == false,
            decreases n - i,
        {
            slain.push(false);
            i = i + 1;
        }
        let mut spawn_points: Vec<SpawnPoint> = Vec::new();
        let m = self.spawn_points.len();
        let mut k: usize = 0;
        while k < m
            invariant
                k <= m,
                m == self.spawn_points@.len(),
                spawn_points@ == self.spawn_points@.take(k as int),
            decreases m - k,
        {
            spawn_points.push(self.spawn_points[k]);
            assert(self.spawn_points@.take(k + 1) =~= self.spawn_points@.take(k as int).push(
                self.spawn_points@[k as int],
            ));
            k = k + 1;
        }
        assert(self.spawn_points@.take(m as int) =~= self.spawn_points@);
        assert(slain@ =~= Seq::new(self.enemies@.len(), |i: int| false));
        Pass {
            score_1: self.player_1.next_score,
            score_2: self.player_2.next_score,
            health_1: self.player_1.health,
            health_2: self.player_2.health,
            splatter: Vec::new(),
            power_ups: Vec::new(),
            rng: self.rng,
            spent: Vec::new(),
            slain,
            spawn_points,
            destroyed: false,
            damage: 0,
        }
    }

    /// The bullets' part of a tick: every bullet flies, then each one is
    /// tested against the walls and against what it can hit, and at the
    /// end the spent bullets and the killed enemies leave, the spawn points
    /// lose their charges, the boss arrives if the last spawn point fell,
    /// and the boss takes its hits.
    pub fn update_bullets(&mut self, ctx: &GameContext)
        requires
            old(self).ready(),
        ensures
            final(self)@ == bullets_phase(
                old(self)@,
                old(self).ground(),
                ctx.window_width as int,
                ctx.window_height as int,
            ),
            final(self).same_assets(old(self)),
            final(self).ready(),
    {
        let ghost w = self@;
        let ghost arena = self.arena(ctx);
        let ghost shots = w.bullets.map_values(|b: Bullet| flown(b));
        self.fly_bullets();
        let mut pass = self.open_pass();
        let n = self.bullets.len();
        let mut i: usize = 0;
        assert(shots.take(0) =~= Seq::<Bullet>::empty());
        assert(opening(self@) == opening(w));
        while i < n
            invariant
                i <= n,
                n == shots.len(),
                self.bullets@ == shots,
                self.ready(),
                self.arena(ctx) == arena,
                self@ == (World { bullets: shots, ..w }),
                self.same_assets(old(self)),
                pass.slain@.len() == self.enemies@.len(),
                pass.spawn_points@.len() == self.spawn_points@.len(),
                pass@ == tally_after(arena, opening(w), shots.take(i as int)),
            decreases n - i,
        {
            let b = self.bullets[i];
            self.resolve_bullet(ctx, &mut pass, b);
            assert(shots.take(i + 1).drop_last() =~= shots.take(i as int));
            i = i + 1;
        }
        assert(shots.take(n as int) =~= shots);
        self.bullets = sweep(&self.bullets, &pass.spent);
        self.enemies = sweep(&self.enemies, &pass.slain);
        self.spawn_points = pass.spawn_points;
        self.player_1.next_score = pass.score_1;
        self.player_1.health = pass.health_1;
        self.player_2.next_score = pass.score_2;
        self.player_2.health = pass.health_2;
        self.splatter.append(&mut pass.splatter);
        self.power_ups.append(&mut pass.power_ups);
        self.rng = pass.rng;
        let still_active = has_active(&self.spawn_points);
        if pass.destroyed && !still_active && self.boss.is_none() {
            let roll = self.rng.roll();
            self.boss = Some(
                Boss {
                    pos: Vec2 { x: BOSS_ENTRY_X, y: BOSS_ENTRY_Y },
                    health: 80,
                    heat: 100000,
                    charging: false,
                    tx: 100000 + 300 * roll,
                },
            );
        }
        match self.boss {
            Some(boss) => {
                let health: i64 = boss.health as i64 - pass.damage as i64;
                if health < 1 {
                    self.boss = None;
                } else {
                    self.boss = Some(
                        Boss {
                            pos: boss.pos,
                            health: health as i32,
                            heat: boss.heat,
                            charging: boss.charging,
                            tx: boss.tx,
                        },
                    );
                }
            },
            None => {},
        }
    }
}

} // verus!
