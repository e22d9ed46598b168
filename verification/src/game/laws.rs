//! What holds of the game in general, proved from the definitions of its
//! parts.

use crate::engine::gamepad::TwinStick;
use crate::engine::math::{
    distance, lemma_normalized_is_unit, lemma_scaled_by_units, saturated, Vec2,
};
use crate::engine::rng::{advance, advance_by, lemma_roll_range, nth_roll, roll_of};
use crate::engine::GameContext;
use crate::game::boss::boss_phase;
use crate::game::bullets::{
    active, any_active, arena_of, boss_arrives, bullet_effect, bullets_phase, enemy_near, flown,
    inside, opening, spawn_near, survivors, tally_after, wall_splat, Arena, Tally,
};
use crate::game::enemies::{enemies_phase, enemy_shot, spawn_phase};
use crate::game::pickups::pickups_phase;
use crate::game::player::{aimed, bullets_after, fires, player_after, shot};
use crate::game::scores::{player_eased, scores_phase};
use crate::game::splatter::{burst, lemma_burst_particles};
use crate::game::terrain::{tile_at, wall_tile};
use crate::game::tick::{first_player_phase, second_player_phase, splatter_phase, tick};
use crate::game::{
    Bullet, Enemy, Player, PowerUp, Shooter, Splat, Splatter, SpawnPoint, World, DESTROYED,
};
use vstd::prelude::*;

verus! {

/// Firing. A living player with a cold weapon, ammunition, the trigger
/// held and the aim stick pushed more than a quarter of the way on either
/// axis fires exactly one bullet: from where it stands after the tick,
/// along the aim brought to unit length, at seven units per tick, in its
/// own name. It has one round less, and the weapon's heat is ten units.
pub proof fn lemma_firing(p: Player, pad: TwinStick, ground: Seq<u8>, bullets: Seq<Bullet>)
    requires
        p.heat == 0,
        p.ammo > 0,
        p.health > 0,
        pad.shoot,
        aimed(pad),
    ensures
        bullets_after(bullets, p, pad, ground) == bullets.push(shot(p, pad, ground)),
        bullets_after(bullets, p, pad, ground).len() == bullets.len() + 1,
        shot(p, pad, ground).0 == player_after(p, pad, ground).pos,
        shot(p, pad, ground).1 == (Vec2 { x: pad.aim_x_axis, y: pad.aim_y_axis }).normalized().scaled(
            7000,
        ),
        shot(p, pad, ground).2 == Shooter::Player(p.number),
        player_after(p, pad, ground).ammo == p.ammo - 1,
        player_after(p, pad, ground).heat == 10000,
{
}

/// The speed of a player's bullet. Its velocity is seven times the aim
/// brought to unit length, coordinate by coordinate, and that unit vector
/// is between 0.997 and 1 unit long, so the bullet flies at seven units per
/// tick to within a third of a percent.
pub proof fn lemma_shot_speed(p: Player, pad: TwinStick, ground: Seq<u8>)
    requires
        aimed(pad),
    ensures
        ({
            let unit = (Vec2 { x: pad.aim_x_axis, y: pad.aim_y_axis }).normalized();
            &&& shot(p, pad, ground).1.x == 7 * unit.x
            &&& shot(p, pad, ground).1.y == 7 * unit.y
            &&& shot(p, pad, ground).1.norm_sq() == 49 * unit.norm_sq()
            &&& 995998 < unit.norm_sq() <= 1000000
        }),
{
    lemma_seven_units(Vec2 { x: pad.aim_x_axis, y: pad.aim_y_axis });
}

/// The speed of an enemy's bullet. Whenever an enemy does not stand on its
/// target, however near, the velocity of its bullet is seven times the
/// direction to the target brought to unit length, and that unit vector is
/// between 0.997 and 1 unit long.
pub proof fn lemma_enemy_shot_speed(pos: Vec2, target: Vec2, kind: u8)
    requires
        target.minus(pos) != (Vec2 { x: 0, y: 0 }),
    ensures
        ({
            let unit = target.minus(pos).normalized();
            &&& enemy_shot(pos, target, kind).0 == pos
            &&& enemy_shot(pos, target, kind).2 == Shooter::Enemy(kind)
            &&& enemy_shot(pos, target, kind).1.x == 7 * unit.x
            &&& enemy_shot(pos, target, kind).1.y == 7 * unit.y
            &&& enemy_shot(pos, target, kind).1.norm_sq() == 49 * unit.norm_sq()
            &&& 995998 < unit.norm_sq() <= 1000000
        }),
{
    lemma_seven_units(target.minus(pos));
}

/// A vector other than zero, brought to unit length and scaled by seven,
/// is seven times its unit vector, which is between 0.997 and 1 unit long.
pub proof fn lemma_seven_units(v: Vec2)
    requires
        v.x != 0 || v.y != 0,
    ensures
        v.normalized().scaled(7000).x == 7 * v.normalized().x,
        v.normalized().scaled(7000).y == 7 * v.normalized().y,
        v.normalized().scaled(7000).norm_sq() == 49 * v.normalized().norm_sq(),
        995998 < v.normalized().norm_sq() <= 1000000,
{
    let unit = v.normalized();
    lemma_normalized_is_unit(v);
    lemma_scaled_by_units(unit, 7);
    let u = unit.norm_sq();
    assert((7 * unit.x) * (7 * unit.x) + (7 * unit.y) * (7 * unit.y) == 49 * u)
        by (nonlinear_arith)
        requires
            u == unit.x * unit.x + unit.y * unit.y,
    ;
}

/// Without the conditions for firing no bullet appears and no round is
/// used.
pub proof fn lemma_not_firing(p: Player, pad: TwinStick, ground: Seq<u8>, bullets: Seq<Bullet>)
    requires
        !fires(p, pad),
    ensures
        bullets_after(bullets, p, pad, ground) == bullets,
        player_after(p, pad, ground).ammo == p.ammo,
{
}

/// Cooling. A weapon that is warm and does not fire loses exactly one
/// unit of heat in a tick; a weapon at or below zero that does not fire
/// keeps its heat. Nothing stops the heat at zero: from half a unit it
/// goes to minus half a unit, and stays there.
pub proof fn lemma_cooling(p: Player, pad: TwinStick, ground: Seq<u8>)
    requires
        !fires(p, pad),
    ensures
        p.heat > 0 ==> player_after(p, pad, ground).heat == p.heat - 1000,
        p.heat <= 0 ==> player_after(p, pad, ground).heat == p.heat,
{
}

/// A bullet on a wall. A bullet that has flown onto a wall tile inside
/// the window is used up and throws exactly four particles from where it
/// is, in the enemy's colours if an enemy fired it and as sparks
/// otherwise. It does nothing else.
pub proof fn lemma_wall_stops_bullet(a: Arena, t: Tally, b: Bullet)
    requires
        inside(b.0, a.width, a.height),
        wall_tile(tile_at(a.ground, b.0.x as int, b.0.y as int)),
    ensures
        bullet_effect(a, t, b).spent == t.spent.push(true),
        bullet_effect(a, t, b).splatter == t.splatter + burst(t.rng, b.0, 4, wall_splat(b.2)),
        bullet_effect(a, t, b).splatter.len() == t.splatter.len() + 4,
        bullet_effect(a, t, b).score_1 == t.score_1,
        bullet_effect(a, t, b).score_2 == t.score_2,
        bullet_effect(a, t, b).health_1 == t.health_1,
        bullet_effect(a, t, b).health_2 == t.health_2,
        bullet_effect(a, t, b).power_ups == t.power_ups,
        bullet_effect(a, t, b).slain == t.slain,
        bullet_effect(a, t, b).spawn_points == t.spawn_points,
        bullet_effect(a, t, b).destroyed == t.destroyed,
        bullet_effect(a, t, b).damage == t.damage,
{
}

/// The last charge. A spawn point with one charge that is struck once is
/// destroyed: it has no charge left and its kind is the kind of the
/// destroyed.
pub proof fn lemma_last_charge(t: Tally, s: int)
    requires
        0 <= s < t.spawn_points.len(),
        t.spawn_points[s].charges == 1,
    ensures
        t.strike(s).spawn_points[s].charges == 0,
        t.strike(s).spawn_points[s].kind == DESTROYED,
        t.strike(s).spawn_points[s].pos == t.spawn_points[s].pos,
        t.strike(s).destroyed,
        forall|i: int|
            0 <= i < t.spawn_points.len() && i != s ==> t.strike(s).spawn_points[i]
                == t.spawn_points[i],
{
}

/// A spawn point without a charge produces nothing, whatever the rolls:
/// after the spawning part of a tick the enemies are those of before, or
/// those of before and one more that stands on a spawn point with a charge
/// left and has that point's kind.
pub proof fn lemma_only_charged_points_spawn(w: World)
    requires
        w.spawn_points.len() == 4,
    ensures
        spawn_phase(w).spawn_points == w.spawn_points,
        spawn_phase(w).enemies == w.enemies || exists|i: int|
            0 <= i < 4 && w.spawn_points[i].charges > 0 && spawn_phase(w).enemies.len()
                == w.enemies.len() + 1 && spawn_phase(w).enemies.drop_last() == w.enemies && (
            #[trigger] w.spawn_points[i]).pos == spawn_phase(w).enemies.last().pos
                && w.spawn_points[i].kind == spawn_phase(w).enemies.last().kind,
        (forall|i: int| 0 <= i < 4 ==> (#[trigger] w.spawn_points[i]).charges == 0)
            ==> spawn_phase(w).enemies == w.enemies,
        w.boss is Some ==> spawn_phase(w).enemies == w.enemies,
{
    let s1 = advance(w.rng);
    let s2 = advance(s1);
    let i = roll_of(s2) / 250;
    lemma_roll_range(s2);
    if roll_of(s1) < 20 && w.boss is None && w.spawn_points[i].charges > 0 {
        assert(spawn_phase(w).enemies.drop_last() =~= w.enemies);
    }
}

/// A settled score. A player whose displayed score equals what it is
/// owed is left as it is by the scores' part of a tick.
pub proof fn lemma_settled_scores(w: World)
    requires
        w.player_1.score == w.player_1.next_score,
        w.player_2.score == w.player_2.next_score,
    ensures
        scores_phase(w) == w,
{
    assert(player_eased(w.player_1) == w.player_1);
    assert(player_eased(w.player_2) == w.player_2);
}

/// What holds of the spawn points at every moment of a tick: every spawn
/// point is where it was, with no more charges than it had, untouched if
/// it has as many or was not active, of its old kind while it has any, and
/// destroyed if it lost its last; and a spawn point counts as destroyed
/// during this tick exactly if one lost its last charge.
pub open spec fn worn(before: Seq<SpawnPoint>, now: Seq<SpawnPoint>, destroyed: bool) -> bool {
    &&& now.len() == before.len()
    &&& forall|i: int|
        0 <= i < before.len() ==> {
            let old_point = #[trigger] before[i];
            let new_point = now[i];
            &&& new_point.pos == old_point.pos
            &&& new_point.charges <= old_point.charges
            &&& (new_point.charges == old_point.charges ==> new_point == old_point)
            &&& (new_point.charges > 0 ==> new_point.kind == old_point.kind)
            &&& (new_point.charges == 0 && old_point.charges > 0 ==> new_point.kind == DESTROYED)
            &&& (!active(old_point) ==> new_point == old_point)
        }
    &&& (destroyed <==> exists|i: int|
        0 <= i < before.len() && (#[trigger] before[i]).charges > 0 && now[i].charges == 0)
}

/// What holds of a tally at every moment of a tick, after `seen` bullets
/// have been looked at: it has a mark for each of them and for each enemy,
/// its spawn points are worn as described, and without a boss nothing has
/// hit the boss.
pub open spec fn orderly(a: Arena, t: Tally, seen: int) -> bool {
    &&& t.spent.len() == seen
    &&& t.slain.len() == a.enemies.len()
    &&& worn(a.spawn_points, t.spawn_points, t.destroyed)
    &&& (a.boss is None ==> t.damage == 0)
}

/// A strike keeps the spawn points worn as described.
pub proof fn lemma_strike_wears(before: Seq<SpawnPoint>, t: Tally, s: int)
    requires
        worn(before, t.spawn_points, t.destroyed),
        0 <= s < before.len(),
        active(before[s]),
    ensures
        worn(before, t.strike(s).spawn_points, t.strike(s).destroyed),
{
    let next = t.strike(s);
    let p = t.spawn_points[s];
    assert(before[s].charges >= p.charges);
    if p.charges == 0 {
        assert(next == t);
    } else {
        assert(next.spawn_points.len() == before.len());
        assert forall|i: int| 0 <= i < before.len() implies {
            let old_point = #[trigger] before[i];
            let new_point = next.spawn_points[i];
            &&& new_point.pos == old_point.pos
            &&& new_point.charges <= old_point.charges
            &&& (new_point.charges == old_point.charges ==> new_point == old_point)
            &&& (new_point.charges > 0 ==> new_point.kind == old_point.kind)
            &&& (new_point.charges == 0 && old_point.charges > 0 ==> new_point.kind == DESTROYED)
            &&& (!active(old_point) ==> new_point == old_point)
        } by {
            if i != s {
                assert(next.spawn_points[i] == t.spawn_points[i]);
            }
        }
        if t.destroyed {
            let i = choose|i: int|
                0 <= i < before.len() && (#[trigger] before[i]).charges > 0
                    && t.spawn_points[i].charges == 0;
            assert(i != s);
            assert(before[i].charges > 0 && next.spawn_points[i].charges == 0);
        }
        if p.charges == 1 {
            assert(before[s].charges > 0 && next.spawn_points[s].charges == 0);
        }
        if next.destroyed && !t.destroyed {
            assert(p.charges == 1);
        }
        if exists|i: int|
            0 <= i < before.len() && (#[trigger] before[i]).charges > 0
                && next.spawn_points[i].charges == 0 {
            let i = choose|i: int|
                0 <= i < before.len() && (#[trigger] before[i]).charges > 0
                    && next.spawn_points[i].charges == 0;
            if i != s {
                assert(before[i].charges > 0 && t.spawn_points[i].charges == 0);
            }
        }
    }
}

/// What one bullet can do to the marks, the spawn points and the boss's
/// damage: it adds one mark for itself and none for the enemies; it leaves
/// the spawn points alone or strikes one that was active when the tick
/// began; and it adds damage only if there is a boss.
pub proof fn lemma_bullet_shape(a: Arena, t: Tally, b: Bullet)
    requires
        t.slain.len() == a.enemies.len(),
    ensures
        bullet_effect(a, t, b).spent.len() == t.spent.len() + 1,
        bullet_effect(a, t, b).spent.drop_last() == t.spent,
        bullet_effect(a, t, b).slain.len() == t.slain.len(),
        a.boss is None ==> bullet_effect(a, t, b).damage == t.damage,
        ({
            &&& bullet_effect(a, t, b).spawn_points == t.spawn_points
            &&& bullet_effect(a, t, b).destroyed == t.destroyed
        }) || ({
            let s = spawn_near(a.spawn_points, b.0, 0);
            &&& 0 <= s < a.spawn_points.len()
            &&& active(a.spawn_points[s])
            &&& bullet_effect(a, t, b).spawn_points == t.strike(s).spawn_points
            &&& bullet_effect(a, t, b).destroyed == t.strike(s).destroyed
        }),
{
    lemma_first_spawn_near(a.spawn_points, b.0, 0);
    lemma_first_enemy_near(a.enemies, b.0, 0);
}

/// One bullet keeps a tally orderly.
pub proof fn lemma_bullet_keeps_order(a: Arena, t: Tally, b: Bullet, seen: int)
    requires
        orderly(a, t, seen),
    ensures
        orderly(a, bullet_effect(a, t, b), seen + 1),
{
    lemma_bullet_shape(a, t, b);
    let s = spawn_near(a.spawn_points, b.0, 0);
    if 0 <= s < a.spawn_points.len() && active(a.spawn_points[s]) {
        lemma_strike_wears(a.spawn_points, t, s);
    }
}

/// The tally of a tick is orderly after every bullet.
pub proof fn lemma_tally_is_orderly(w: World, ground: Seq<u8>, width: int, height: int, shots: Seq<Bullet>)
    ensures
        orderly(
            arena_of(w, ground, width, height),
            tally_after(arena_of(w, ground, width, height), opening(w), shots),
            shots.len() as int,
        ),
    decreases shots.len(),
{
    let a = arena_of(w, ground, width, height);
    if shots.len() == 0 {
        assert(orderly(a, opening(w), 0));
    } else {
        lemma_tally_is_orderly(w, ground, width, height, shots.drop_last());
        lemma_bullet_keeps_order(
            a,
            tally_after(a, opening(w), shots.drop_last()),
            shots.last(),
            shots.len() - 1,
        );
    }
}

/// The boss arrives. If the world has no boss, some spawn point was
/// active when the tick began, and none is after the bullets' part of the
/// tick, then after that part the boss is there: at its place above the
/// playfield, with 80 health, heat 100, not charging.
pub proof fn lemma_boss_arrives(w: World, ground: Seq<u8>, width: int, height: int)
    requires
        w.boss is None,
        any_active(w.spawn_points),
        !any_active(bullets_phase(w, ground, width, height).spawn_points),
    ensures
        bullets_phase(w, ground, width, height).boss is Some,
        bullets_phase(w, ground, width, height).boss->0.health == 80,
        bullets_phase(w, ground, width, height).boss->0.heat == 100000,
        bullets_phase(w, ground, width, height).boss->0.pos.x == 264000,
        bullets_phase(w, ground, width, height).boss->0.pos.y == -55000,
        !bullets_phase(w, ground, width, height).boss->0.charging,
        100000 <= bullets_phase(w, ground, width, height).boss->0.tx < 400000,
{
    let a = arena_of(w, ground, width, height);
    let shots = w.bullets.map_values(|b: Bullet| flown(b));
    let t = tally_after(a, opening(w), shots);
    lemma_tally_is_orderly(w, ground, width, height, shots);
    let i = choose|i: int| 0 <= i < w.spawn_points.len() && active(#[trigger] w.spawn_points[i]);
    assert(active(a.spawn_points[i]));
    assert(!active(t.spawn_points[i]));
    assert(a.spawn_points[i].charges > 0 && t.spawn_points[i].charges == 0);
    assert(t.destroyed);
    assert(boss_arrives(w, t));
    lemma_roll_range(advance(t.rng));
    assert(nth_roll(t.rng, 0) == roll_of(advance(t.rng))) by {
        assert(advance_by(t.rng, 1) == advance(advance_by(t.rng, 0)));
    }
}

/// The boss arrives only so. While a spawn point stays active, or when
/// none was active when the tick began, the bullets' part of a tick brings
/// no boss.
pub proof fn lemma_boss_waits(w: World, ground: Seq<u8>, width: int, height: int)
    requires
        w.boss is None,
        !any_active(w.spawn_points) || any_active(
            bullets_phase(w, ground, width, height).spawn_points,
        ),
    ensures
        bullets_phase(w, ground, width, height).boss is None,
{
    let a = arena_of(w, ground, width, height);
    let shots = w.bullets.map_values(|b: Bullet| flown(b));
    let t = tally_after(a, opening(w), shots);
    lemma_tally_is_orderly(w, ground, width, height, shots);
    if t.destroyed {
        let i = choose|i: int|
            0 <= i < a.spawn_points.len() && (#[trigger] a.spawn_points[i]).charges > 0
                && t.spawn_points[i].charges == 0;
        assert(active(w.spawn_points[i]));
    }
}

/// Spawn points through the bullets' part of a tick: each stays where it
/// is and gains no charge; one that loses its last charge is destroyed,
/// and one that keeps a charge keeps its kind.
pub proof fn lemma_spawn_points_wear_down(
    w: World,
    ground: Seq<u8>,
    width: int,
    height: int,
    i: int,
)
    requires
        0 <= i < w.spawn_points.len(),
    ensures
        bullets_phase(w, ground, width, height).spawn_points.len() == w.spawn_points.len(),
        bullets_phase(w, ground, width, height).spawn_points[i].pos == w.spawn_points[i].pos,
        bullets_phase(w, ground, width, height).spawn_points[i].charges
            <= w.spawn_points[i].charges,
        w.spawn_points[i].charges > 0 && bullets_phase(
            w,
            ground,
            width,
            height,
        ).spawn_points[i].charges == 0 ==> bullets_phase(
            w,
            ground,
            width,
            height,
        ).spawn_points[i].kind == DESTROYED,
        bullets_phase(w, ground, width, height).spawn_points[i].charges > 0 ==> bullets_phase(
            w,
            ground,
            width,
            height,
        ).spawn_points[i].kind == w.spawn_points[i].kind,
{
    let a = arena_of(w, ground, width, height);
    let shots = w.bullets.map_values(|b: Bullet| flown(b));
    lemma_tally_is_orderly(w, ground, width, height, shots);
    assert(a.spawn_points[i] == w.spawn_points[i]);
}

/// A mark is final. Once a bullet has been looked at, its mark in the
/// tally does not change: after all bullets, the mark of the `i`-th is
/// the one that the `i`-th bullet got when its turn came.
pub proof fn lemma_mark_is_final(a: Arena, t: Tally, shots: Seq<Bullet>, i: int)
    requires
        0 <= i < shots.len(),
        t.slain.len() == a.enemies.len(),
    ensures
        tally_after(a, t, shots).spent.len() == t.spent.len() + shots.len(),
        tally_after(a, t, shots).slain.len() == a.enemies.len(),
        tally_after(a, t, shots.take(i)).spent.len() == t.spent.len() + i,
        tally_after(a, t, shots).spent[t.spent.len() + i] == bullet_effect(
            a,
            tally_after(a, t, shots.take(i)),
            shots[i],
        ).spent.last(),
    decreases shots.len(),
{
    let n = shots.len() as int;
    let earlier = tally_after(a, t, shots.drop_last());
    lemma_tally_sizes(a, t, shots.drop_last());
    lemma_bullet_shape(a, earlier, shots.last());
    if i == n - 1 {
        assert(shots.take(i) =~= shots.drop_last());
    } else {
        lemma_mark_is_final(a, t, shots.drop_last(), i);
        assert(shots.drop_last().take(i) =~= shots.take(i));
    }
}

/// The tally has one mark more for every bullet looked at, and keeps one
/// mark for every enemy.
pub proof fn lemma_tally_sizes(a: Arena, t: Tally, shots: Seq<Bullet>)
    requires
        t.slain.len() == a.enemies.len(),
    ensures
        tally_after(a, t, shots).spent.len() == t.spent.len() + shots.len(),
        tally_after(a, t, shots).slain.len() == a.enemies.len(),
    decreases shots.len(),
{
    if shots.len() > 0 {
        lemma_tally_sizes(a, t, shots.drop_last());
        lemma_bullet_shape(a, tally_after(a, t, shots.drop_last()), shots.last());
    }
}

/// A bullet on a wall leaves. Whatever else happens in the tick, a bullet
/// that flies onto a wall tile inside the window is marked as used up, so
/// it is not among the bullets that the bullets' part of the tick leaves.
pub proof fn lemma_wall_bullet_is_spent(w: World, ground: Seq<u8>, width: int, height: int, i: int)
    requires
        0 <= i < w.bullets.len(),
        inside(flown(w.bullets[i]).0, width, height),
        wall_tile(tile_at(ground, flown(w.bullets[i]).0.x as int, flown(w.bullets[i]).0.y as int)),
    ensures
        ({
            let shots = w.bullets.map_values(|b: Bullet| flown(b));
            let t = tally_after(arena_of(w, ground, width, height), opening(w), shots);
            &&& t.spent.len() == w.bullets.len()
            &&& t.spent[i]
            &&& bullets_phase(w, ground, width, height).bullets == survivors(shots, t.spent)
        }),
{
    let a = arena_of(w, ground, width, height);
    let shots = w.bullets.map_values(|b: Bullet| flown(b));
    lemma_mark_is_final(a, opening(w), shots, i);
    lemma_wall_stops_bullet(a, tally_after(a, opening(w), shots.take(i)), shots[i]);
}

/// A lone bullet on a wall. In a world with a single bullet that flies
/// onto a wall tile inside the window, the bullets' part of the tick
/// leaves no bullet and exactly four particles more, and changes no
/// score, no health, no enemy, no spawn point, and no boss that has health
/// left.
pub proof fn lemma_lone_wall_bullet(w: World, ground: Seq<u8>, width: int, height: int)
    requires
        w.bullets.len() == 1,
        inside(flown(w.bullets[0]).0, width, height),
        wall_tile(tile_at(ground, flown(w.bullets[0]).0.x as int, flown(w.bullets[0]).0.y as int)),
    ensures
        bullets_phase(w, ground, width, height).bullets.len() == 0,
        bullets_phase(w, ground, width, height).splatter.len() == w.splatter.len() + 4,
        bullets_phase(w, ground, width, height).splatter == w.splatter + burst(
            w.rng,
            flown(w.bullets[0]).0,
            4,
            wall_splat(w.bullets[0].2),
        ),
        bullets_phase(w, ground, width, height).player_1 == w.player_1,
        bullets_phase(w, ground, width, height).player_2 == w.player_2,
        bullets_phase(w, ground, width, height).enemies == w.enemies,
        bullets_phase(w, ground, width, height).spawn_points == w.spawn_points,
        bullets_phase(w, ground, width, height).power_ups == w.power_ups,
        w.boss is None || w.boss->0.health >= 1 ==> bullets_phase(w, ground, width, height).boss
            == w.boss,
{
    let a = arena_of(w, ground, width, height);
    let shots = w.bullets.map_values(|b: Bullet| flown(b));
    assert(shots.drop_last() =~= Seq::<Bullet>::empty());
    assert(tally_after(a, opening(w), shots.drop_last()) == opening(w));
    let t = tally_after(a, opening(w), shots);
    assert(t == bullet_effect(a, opening(w), shots[0]));
    lemma_wall_stops_bullet(a, opening(w), shots[0]);
    assert(t.spent =~= seq![true]);
    assert(survivors(shots.drop_last(), t.spent) =~= Seq::<Bullet>::empty());
    assert(survivors(shots, t.spent) =~= Seq::<Bullet>::empty());
    lemma_survivors_unmarked(w.enemies, t.slain);
    assert(t.power_ups =~= Seq::<PowerUp>::empty());
    assert(w.power_ups + t.power_ups =~= w.power_ups);
    assert(!boss_arrives(w, t));
    assert(t.splatter =~= burst(w.rng, shots[0].0, 4, wall_splat(shots[0].2)));
}

/// Where nothing is marked, everything survives.
pub proof fn lemma_survivors_unmarked<T>(items: Seq<T>, gone: Seq<bool>)
    requires
        forall|i: int| 0 <= i < gone.len() && i < items.len() ==> !gone[i],
    ensures
        survivors(items, gone) == items,
    decreases items.len(),
{
    if items.len() > 0 {
        lemma_survivors_unmarked(items.drop_last(), gone);
        assert(items.drop_last().push(items.last()) =~= items);
    }
}

/// Where one item is marked, the others survive in their order.
pub proof fn lemma_survivors_but_one<T>(items: Seq<T>, gone: Seq<bool>, e: int)
    requires
        0 <= e < items.len() <= gone.len(),
        gone[e],
        forall|i: int| 0 <= i < items.len() && i != e ==> !gone[i],
    ensures
        survivors(items, gone) == items.remove(e),
    decreases items.len(),
{
    let n = items.len() as int;
    if e == n - 1 {
        lemma_survivors_unmarked(items.drop_last(), gone);
        assert(items.drop_last() =~= items.remove(e));
    } else {
        lemma_survivors_but_one(items.drop_last(), gone, e);
        assert(items.drop_last().remove(e).push(items.last()) =~= items.remove(e));
    }
}

/// Spent for good. A spawn point without a charge is left exactly as it
/// is by a whole tick, so it never produces an enemy again.
pub proof fn lemma_spent_point_stays_spent(w: World, ctx: GameContext, ground: Seq<u8>, i: int)
    requires
        0 <= i < w.spawn_points.len(),
        w.spawn_points[i].charges == 0,
    ensures
        tick(w, ctx, ground).spawn_points.len() == w.spawn_points.len(),
        tick(w, ctx, ground).spawn_points[i] == w.spawn_points[i],
{
    let width = ctx.window_width as int;
    let height = ctx.window_height as int;
    let w1 = first_player_phase(w, ctx.gamepad_1, ground);
    let w2 = second_player_phase(w1, ctx.gamepad_2, ground);
    let w3 = bullets_phase(w2, ground, width, height);
    assert(w2.spawn_points == w.spawn_points);
    lemma_spawn_points_wear_down(w2, ground, width, height, i);
    let shots = w2.bullets.map_values(|b: Bullet| flown(b));
    lemma_tally_is_orderly(w2, ground, width, height, shots);
    assert(arena_of(w2, ground, width, height).spawn_points[i] == w.spawn_points[i]);
    assert(w3.spawn_points[i] == w.spawn_points[i]);
    let w4 = splatter_phase(w3);
    let w5 = spawn_phase(w4);
    let w6 = enemies_phase(w5, ground, width, height);
    let w7 = boss_phase(w6);
    let w8 = pickups_phase(w7);
    assert(w4.spawn_points == w3.spawn_points);
    assert(w5.spawn_points == w4.spawn_points);
    assert(w6.spawn_points == w5.spawn_points);
    assert(w7.spawn_points == w6.spawn_points);
    assert(w8.spawn_points == w7.spawn_points);
    assert(scores_phase(w8).spawn_points == w8.spawn_points);
}

/// First in the list. The enemy that a bullet at `pos` hits is the first
/// in the list that is near it, whether or not a later one is nearer; and
/// if the search finds none, no enemy is near.
pub proof fn lemma_first_enemy_near(enemies: Seq<Enemy>, pos: Vec2, from: int)
    requires
        0 <= from <= enemies.len(),
    ensures
        from <= enemy_near(enemies, pos, from) <= enemies.len(),
        enemy_near(enemies, pos, from) < enemies.len() ==> distance(
            enemies[enemy_near(enemies, pos, from)].pos,
            pos,
        ) < 16000,
        forall|j: int|
            from <= j < enemy_near(enemies, pos, from) ==> distance(
                (#[trigger] enemies[j]).pos,
                pos,
            ) >= 16000,
    decreases enemies.len() - from,
{
    if from < enemies.len() {
        lemma_first_enemy_near(enemies, pos, from + 1);
    }
}

/// First in the list. The spawn point that a bullet at `pos` strikes is
/// the first in the list that is active and near it; and if the search
/// finds none, no active spawn point is near.
pub proof fn lemma_first_spawn_near(points: Seq<SpawnPoint>, pos: Vec2, from: int)
    requires
        0 <= from <= points.len(),
    ensures
        from <= spawn_near(points, pos, from) <= points.len(),
        spawn_near(points, pos, from) < points.len() ==> active(
            points[spawn_near(points, pos, from)],
        ) && distance(points[spawn_near(points, pos, from)].pos, pos) < 16000,
        forall|j: int|
            from <= j < spawn_near(points, pos, from) ==> !active(#[trigger] points[j])
                || distance(points[j].pos, pos) >= 16000,
    decreases points.len() - from,
{
    if from < points.len() {
        lemma_first_spawn_near(points, pos, from + 1);
    }
}

/// A kill. A player's bullet that has flown to an open tile inside the
/// window, near an enemy, is used up and kills the first enemy near it.
/// Its player is owed exactly 125 more and the other player nothing; eight
/// particles fly, at most one power-up falls, and health, spawn points and
/// the boss's damage stay as they are.
pub proof fn lemma_kill(a: Arena, t: Tally, b: Bullet, number: u8)
    requires
        inside(b.0, a.width, a.height),
        !wall_tile(tile_at(a.ground, b.0.x as int, b.0.y as int)),
        b.2 == Shooter::Player(number),
        enemy_near(a.enemies, b.0, 0) < a.enemies.len(),
        t.slain.len() == a.enemies.len(),
    ensures
        bullet_effect(a, t, b).spent == t.spent.push(true),
        bullet_effect(a, t, b).slain == t.slain.update(enemy_near(a.enemies, b.0, 0), true),
        number == 1 ==> bullet_effect(a, t, b).score_1 == saturated(t.score_1 + 125)
            && bullet_effect(a, t, b).score_2 == t.score_2,
        number != 1 ==> bullet_effect(a, t, b).score_2 == saturated(t.score_2 + 125)
            && bullet_effect(a, t, b).score_1 == t.score_1,
        bullet_effect(a, t, b).splatter.len() == t.splatter.len() + 8,
        bullet_effect(a, t, b).splatter == t.splatter + burst(
            t.spend().slay(enemy_near(a.enemies, b.0, 0)).credit(number, 125).maybe_drop(b.0).rng,
            b.0,
            8,
            Splat::Enemy(a.enemies[enemy_near(a.enemies, b.0, 0)].kind),
        ),
        t.power_ups.len() <= bullet_effect(a, t, b).power_ups.len() <= t.power_ups.len() + 1,
        bullet_effect(a, t, b).health_1 == t.health_1,
        bullet_effect(a, t, b).health_2 == t.health_2,
        bullet_effect(a, t, b).spawn_points == t.spawn_points,
        bullet_effect(a, t, b).destroyed == t.destroyed,
        bullet_effect(a, t, b).damage == t.damage,
{
    lemma_first_enemy_near(a.enemies, b.0, 0);
}

/// A lone kill. In a world with a single bullet, fired by a player, that
/// flies to an open tile inside the window near an enemy, the bullets'
/// part of the tick leaves no bullet; the first enemy near the bullet is
/// gone and all others stay in their order; the player who fired is owed
/// 125 more, as far as 32 bits hold it, and is otherwise unchanged, as is
/// the other player; exactly eight particles more fly from where the
/// bullet is, in the colours of the enemy; at most one power-up falls; and
/// the spawn points and a boss that has health left stay as they are.
pub proof fn lemma_lone_kill(w: World, ground: Seq<u8>, width: int, height: int, number: u8)
    requires
        w.bullets.len() == 1,
        w.bullets[0].2 == Shooter::Player(number),
        inside(flown(w.bullets[0]).0, width, height),
        !wall_tile(tile_at(ground, flown(w.bullets[0]).0.x as int, flown(w.bullets[0]).0.y as int)),
        enemy_near(w.enemies, flown(w.bullets[0]).0, 0) < w.enemies.len(),
    ensures
        ({
            let at = flown(w.bullets[0]).0;
            let e = enemy_near(w.enemies, at, 0);
            let after = bullets_phase(w, ground, width, height);
            let owed_1 = if number == 1 {
                saturated(w.player_1.next_score + 125)
            } else {
                w.player_1.next_score as int
            };
            let owed_2 = if number == 1 {
                w.player_2.next_score as int
            } else {
                saturated(w.player_2.next_score + 125)
            };
            &&& after.bullets.len() == 0
            &&& 0 <= e < w.enemies.len()
            &&& after.enemies == w.enemies.remove(e)
            &&& after.player_1 == (Player { next_score: owed_1 as i32, ..w.player_1 })
            &&& after.player_2 == (Player { next_score: owed_2 as i32, ..w.player_2 })
            &&& after.splatter.len() == w.splatter.len() + 8
            &&& after.splatter.take(w.splatter.len() as int) == w.splatter
            &&& forall|k: int|
                0 <= k < 8 ==> (#[trigger] after.splatter[w.splatter.len() + k]).kind
                    == Splat::Enemy(w.enemies[e].kind) && after.splatter[w.splatter.len() + k].pos
                    == at
            &&& after.power_ups.len() == w.power_ups.len() || after.power_ups.len()
                == w.power_ups.len() + 1
            &&& after.power_ups.take(w.power_ups.len() as int) == w.power_ups
            &&& after.spawn_points == w.spawn_points
            &&& (w.boss is None || w.boss->0.health >= 1 ==> after.boss == w.boss)
        }),
{
    let a = arena_of(w, ground, width, height);
    let shots = w.bullets.map_values(|b: Bullet| flown(b));
    let at = shots[0].0;
    let e = enemy_near(w.enemies, at, 0);
    let start = opening(w);
    assert(shots.drop_last() =~= Seq::<Bullet>::empty());
    assert(tally_after(a, start, shots.drop_last()) == start);
    let t = tally_after(a, start, shots);
    assert(t == bullet_effect(a, start, shots[0]));
    lemma_first_enemy_near(w.enemies, at, 0);
    lemma_kill(a, start, shots[0], number);
    assert(t.spent =~= seq![true]);
    assert(survivors(shots.drop_last(), t.spent) =~= Seq::<Bullet>::empty());
    assert(survivors(shots, t.spent) =~= Seq::<Bullet>::empty());
    lemma_survivors_but_one(w.enemies, t.slain, e);
    assert(!boss_arrives(w, t));
    let s = start.spend().slay(e).credit(number, 125).maybe_drop(at).rng;
    let kind = Splat::Enemy(w.enemies[e].kind);
    let after = bullets_phase(w, ground, width, height);
    assert(start.splatter =~= Seq::<Splatter>::empty());
    assert(after.splatter =~= w.splatter + burst(s, at, 8, kind));
    assert(after.splatter.take(w.splatter.len() as int) =~= w.splatter);
    assert forall|k: int| 0 <= k < 8 implies (#[trigger] after.splatter[w.splatter.len() + k]).kind
        == kind && after.splatter[w.splatter.len() + k].pos == at by {
        lemma_burst_particles(s, at, 8, kind, k);
        assert(after.splatter[w.splatter.len() + k] == burst(s, at, 8, kind)[k]);
    }
    assert(start.power_ups =~= Seq::<PowerUp>::empty());
    assert(after.power_ups.take(w.power_ups.len() as int) =~= w.power_ups);
}

} // verus!
